//! Controller process attempts: output encoding, exit dispositions, the
//! switch-then-verify attempt, and the human-readable attempt diagnostic.
//! The process itself is started by a runner that the caller supplies.

use base64::Engine as _;
use vstd::prelude::*;

use crate::command::{context_values_spec, resolve_command, resolve_spec};
use crate::control_model::{
    exit_zero, same_context, strs_view, AntennaControlCommand, AntennaControlContext, AntennaControlDisposition,
    AntennaControlInvocation, AntennaControlOutput, AntennaControlOutputEncoding,
    AntennaControlRole, COMMAND_ARGUMENT_MAX_BYTES,
};
use crate::profiles::{ControllerCommandTemplate, ControllerProfile};
use crate::text::{
    byte_len, chars_of, dec, dec_signed, i32_text, is_longest_prefix_within, owned, prefix_string,
    prefix_within, push_str, u64_text,
};

verus! {

/// Captured output bytes, and whether more were produced than retained.
#[derive(Debug)]
pub struct CapturedBytes {
    pub bytes: Vec<u8>,
    pub truncated: bool,
}

/// What a finished (or never started) controller process produced. Times
/// are UTC milliseconds since the Unix epoch.
#[derive(Debug)]
pub struct ProcessResult {
    pub started_at_ms: i64,
    pub completed_at_ms: i64,
    pub disposition: AntennaControlDisposition,
    pub stdout: AntennaControlOutput,
    pub stderr: AntennaControlOutput,
}

/// The character of a six-bit value in the standard base64 alphabet.
pub open spec fn base64_digit(v: int) -> char {
    if v < 26 {
        (65 + v) as char
    } else if v < 52 {
        (97 + v - 26) as char
    } else if v < 62 {
        (48 + v - 52) as char
    } else if v == 62 {
        '+'
    } else {
        '/'
    }
}

/// The standard base64 text of a byte sequence (RFC 4648, section 4): each
/// group of three bytes becomes four characters of six bits each, and a
/// last group of one or two bytes is padded with `=`.
pub open spec fn base64_standard(bytes: Seq<u8>) -> Seq<char>
    decreases bytes.len(),
{
    if bytes.len() == 0 {
        Seq::empty()
    } else if bytes.len() == 1 {
        let a = bytes[0] as int;
        seq![base64_digit(a / 4), base64_digit((a % 4) * 16), '=', '=']
    } else if bytes.len() == 2 {
        let a = bytes[0] as int;
        let b = bytes[1] as int;
        seq![base64_digit(a / 4), base64_digit((a % 4) * 16 + b / 16), base64_digit((b % 16) * 4), '=']
    } else {
        let a = bytes[0] as int;
        let b = bytes[1] as int;
        let c = bytes[2] as int;
        seq![
            base64_digit(a / 4),
            base64_digit((a % 4) * 16 + b / 16),
            base64_digit((b % 16) * 4 + c / 64),
            base64_digit(c % 64),
        ] + base64_standard(bytes.subrange(3, bytes.len() as int))
    }
}

/// `base64::engine::general_purpose::STANDARD.encode`: the standard
/// alphabet with padding, which the contract states in full.
#[verifier::external_body]
fn base64_encode(bytes: &[u8]) -> (r: String)
    ensures
        r@ == base64_standard(bytes@),
{
    base64::engine::general_purpose::STANDARD.encode(bytes)
}

/// `String::from_utf8`: the text when the bytes are valid UTF-8, else the
/// bytes back.
#[verifier::external_body]
fn string_from_utf8(bytes: Vec<u8>) -> (r: Result<String, Vec<u8>>)
    ensures
        r is Ok == vstd::utf8::valid_utf8(bytes@),
        r matches Ok(s) ==> vstd::utf8::encode_utf8(s@) == bytes@,
        r matches Err(b) ==> b@ == bytes@,
{
    String::from_utf8(bytes).map_err(|error| error.into_bytes())
}

/// Output is kept as UTF-8 text when it is valid UTF-8, otherwise as
/// standard base64; truncation is reported either way.
pub fn encode_output(captured: CapturedBytes) -> (r: AntennaControlOutput)
    ensures
        r.truncated == captured.truncated,
        vstd::utf8::valid_utf8(captured.bytes@) ==> r.encoding
            == AntennaControlOutputEncoding::Utf8 && vstd::utf8::encode_utf8(r.data@)
            == captured.bytes@,
        !vstd::utf8::valid_utf8(captured.bytes@) ==> r.encoding
            == AntennaControlOutputEncoding::Base64 && r.data@ == base64_standard(captured.bytes@),
{
    let CapturedBytes { bytes, truncated } = captured;
    match string_from_utf8(bytes) {
        Ok(data) => AntennaControlOutput { encoding: AntennaControlOutputEncoding::Utf8, data, truncated },
        Err(bytes) => AntennaControlOutput {
            encoding: AntennaControlOutputEncoding::Base64,
            data: base64_encode(bytes.as_slice()),
            truncated,
        },
    }
}

/// A message cut at a character boundary to the longest prefix that fits
/// the fixed argument limit.
pub fn bounded_message(message: String) -> (r: String)
    ensures
        r@ == message@.take(r@.len() as int),
        is_longest_prefix_within(message@, r@.len() as int, COMMAND_ARGUMENT_MAX_BYTES as nat),
{
    let cs = chars_of(message.as_str());
    let k = prefix_within(&cs, COMMAND_ARGUMENT_MAX_BYTES);
    if k == cs.len() {
        assert(message@.take(k as int) =~= message@);
        return message;
    }
    prefix_string(&cs, k)
}

/// The disposition of a process that exited with `code`, or was ended by a
/// signal when it has none.
pub fn disposition(code: Option<i32>, signal: Option<i32>) -> (r: AntennaControlDisposition)
    ensures
        r == (match code {
            Some(c) => AntennaControlDisposition::Exit { code: c },
            None => AntennaControlDisposition::Signaled { signal },
        }),
{
    match code {
        Some(c) => AntennaControlDisposition::Exit { code: c },
        None => AntennaControlDisposition::Signaled { signal },
    }
}

/// How many bytes of a chunk still fit beside `retained` bytes.
pub open spec fn kept_of(retained: nat, chunk: nat, limit: nat) -> nat {
    let available = if retained >= limit { 0 } else { (limit - retained) as nat };
    if available < chunk { available } else { chunk }
}

/// Retains as much of a chunk of output as still fits `limit` bytes in
/// all; what does not fit is dropped and the capture marked truncated.
pub fn absorb_output(captured: &mut CapturedBytes, chunk: &[u8], limit: usize)
    ensures
        final(captured).bytes@ == old(captured).bytes@ + chunk@.take(
            kept_of(old(captured).bytes@.len(), chunk@.len(), limit as nat) as int,
        ),
        final(captured).truncated == (old(captured).truncated || kept_of(
            old(captured).bytes@.len(),
            chunk@.len(),
            limit as nat,
        ) < chunk@.len()),
{
    let available = if captured.bytes.len() >= limit { 0 } else { limit - captured.bytes.len() };
    let keep = if available < chunk.len() { available } else { chunk.len() };
    let ghost before = captured.bytes@;
    let mut i: usize = 0;
    while i < keep
        invariant
            i <= keep,
            keep <= chunk@.len(),
            captured.bytes@ == before + chunk@.take(i as int),
            captured.truncated == old(captured).truncated,
        decreases keep - i,
    {
        captured.bytes.push(chunk[i]);
        assert(chunk@.take(i + 1) =~= chunk@.take(i as int).push(chunk@[i as int]));
        i = i + 1;
    }
    if keep < chunk.len() {
        captured.truncated = true;
    }
}

/// The disposition of a finished process: a timeout or a cancellation
/// overrides how the process ended.
pub fn process_disposition(timed_out: bool, was_cancelled: bool, code: Option<i32>, signal: Option<i32>) -> (r: AntennaControlDisposition)
    ensures
        timed_out ==> r == AntennaControlDisposition::Timeout,
        !timed_out && was_cancelled ==> r == (AntennaControlDisposition::Signaled { signal }),
        !timed_out && !was_cancelled ==> r == (match code {
            Some(c) => AntennaControlDisposition::Exit { code: c },
            None => AntennaControlDisposition::Signaled { signal },
        }),
{
    if timed_out {
        AntennaControlDisposition::Timeout
    } else if was_cancelled {
        AntennaControlDisposition::Signaled { signal }
    } else {
        disposition(code, signal)
    }
}

proof fn lemma_nonempty_text_encodes_to_bytes(chars: Seq<char>)
    ensures
        chars.len() != 0 ==> vstd::utf8::encode_utf8(chars).len() != 0,
{
    if chars.len() != 0 {
        let c = chars[0] as u32;
        assert(vstd::utf8::encode_scalar(c).len() >= 1);
    }
}

/// The result of a process that could not be started: the start failure's
/// message, bounded, and no output.
pub fn spawn_failure(started_at_ms: i64, completed_at_ms: i64, message: String) -> (r: ProcessResult)
    ensures
        r.started_at_ms == started_at_ms,
        r.completed_at_ms == completed_at_ms,
        r.disposition matches AntennaControlDisposition::SpawnError { message: m } && m@ == message@.take(m@.len() as int)
            && is_longest_prefix_within(message@, m@.len() as int, COMMAND_ARGUMENT_MAX_BYTES as nat),
        r.stdout.data@.len() == 0 && !r.stdout.truncated && r.stdout.encoding == AntennaControlOutputEncoding::Utf8,
        r.stderr.data@.len() == 0 && !r.stderr.truncated && r.stderr.encoding == AntennaControlOutputEncoding::Utf8,
{
    let empty = CapturedBytes { bytes: Vec::new(), truncated: false };
    let none = CapturedBytes { bytes: Vec::new(), truncated: false };
    assert(vstd::utf8::valid_utf8(empty.bytes@));
    let stdout = encode_output(empty);
    let stderr = encode_output(none);
    proof {
        lemma_nonempty_text_encodes_to_bytes(stdout.data@);
        lemma_nonempty_text_encodes_to_bytes(stderr.data@);
    }
    ProcessResult {
        started_at_ms,
        completed_at_ms,
        disposition: AntennaControlDisposition::SpawnError { message: bounded_message(message) },
        stdout,
        stderr,
    }
}

/// Elapsed milliseconds between two instants, never negative.
pub open spec fn elapsed_ms(started: i64, completed: i64) -> u64 {
    if completed - started <= 0 {
        0
    } else if completed - started > i64::MAX {
        i64::MAX as u64
    } else {
        (completed - started) as u64
    }
}

fn elapsed(started: i64, completed: i64) -> (r: u64)
    ensures
        r == elapsed_ms(started, completed),
{
    let d: i128 = completed as i128 - started as i128;
    if d <= 0 {
        0
    } else if d > i64::MAX as i128 {
        i64::MAX as u64
    } else {
        d as u64
    }
}

/// Whether `inv` records `result` as the outcome of running its command.
pub open spec fn records_result(inv: AntennaControlInvocation, result: ProcessResult) -> bool {
    &&& inv.started_at_ms == result.started_at_ms
    &&& inv.completed_at_ms == result.completed_at_ms
    &&& inv.elapsed_milliseconds == elapsed_ms(result.started_at_ms, result.completed_at_ms)
    &&& inv.disposition == result.disposition
    &&& inv.stdout == result.stdout
    &&& inv.stderr == result.stderr
}

/// `inv` records what `run` returned for its command, run with a timeout
/// of `timeout_seconds`.
pub open spec fn ran_with<R: Fn(&AntennaControlCommand, u64) -> ProcessResult>(
    inv: AntennaControlInvocation,
    timeout_seconds: u8,
    run: R,
) -> bool {
    exists|result: ProcessResult|
        #![trigger records_result(inv, result)]
        run.ensures((&inv.command, timeout_seconds as u64), result) && records_result(inv, result)
}

/// Whether `inv` is an invocation of `template` for `context` by `profile`
/// in `role`, with its command expanded as [`resolve_spec`] says.
pub open spec fn invocation_of(
    inv: AntennaControlInvocation,
    profile: ControllerProfile,
    role: AntennaControlRole,
    template: ControllerCommandTemplate,
    context: AntennaControlContext,
) -> bool {
    &&& inv.role == role
    &&& inv.controller_profile_name@ == profile.name@
    &&& inv.controller_profile_revision@ == profile.revision@
    &&& same_context(inv.context, context)
    &&& inv.command.program_template@ == template.program_template@
    &&& strs_view(inv.command.argument_templates@) == strs_view(template.argument_templates@)
    &&& resolve_spec(
        template.program_template@,
        strs_view(template.argument_templates@),
        context_values_spec(context),
    ) == Ok::<(Seq<char>, Seq<Seq<char>>), Seq<char>>(
        (inv.command.resolved_program@, strs_view(inv.command.resolved_arguments@)),
    )
}

/// Expands one command and runs it once through `run`, bounded by the
/// profile's timeout in seconds.
pub fn invocation(
    profile: &ControllerProfile,
    role: AntennaControlRole,
    template: &ControllerCommandTemplate,
    context: AntennaControlContext,
    run: &impl Fn(&AntennaControlCommand, u64) -> ProcessResult,
) -> (r: Result<AntennaControlInvocation, String>)
    requires
        forall|c: &AntennaControlCommand, t: u64| #[trigger] run.requires((c, t)),
    ensures
        match resolve_spec(
            template.program_template@,
            strs_view(template.argument_templates@),
            context_values_spec(context),
        ) {
            Err(m) => r matches Err(e) && e@ == m,
            Ok(_) => r matches Ok(inv) && invocation_of(inv, *profile, role, *template, context)
                && ran_with(inv, profile.timeout_seconds, *run),
        },
{
    let command = resolve_command(template, &context)?.command;
    let result = run(&command, profile.timeout_seconds as u64);
    let elapsed_milliseconds = elapsed(result.started_at_ms, result.completed_at_ms);
    let inv = AntennaControlInvocation {
        role,
        controller_profile_name: profile.name.clone(),
        controller_profile_revision: profile.revision.clone(),
        command,
        context,
        started_at_ms: result.started_at_ms,
        completed_at_ms: result.completed_at_ms,
        elapsed_milliseconds,
        disposition: result.disposition,
        stdout: result.stdout,
        stderr: result.stderr,
    };
    assert(records_result(inv, result));
    Ok(inv)
}

/// Which command of an attempt could not be expanded, and why.
#[derive(Debug)]
pub struct AttemptExecutionError {
    pub role: AntennaControlRole,
    pub detail: String,
}

/// Runs the switch command; runs the verification command only when the
/// profile has one and the switch exited with code zero.
pub fn execute_profile_attempt(
    profile: &ControllerProfile,
    context: AntennaControlContext,
    run: &impl Fn(&AntennaControlCommand, u64) -> ProcessResult,
) -> (r: Result<(AntennaControlInvocation, Option<AntennaControlInvocation>), AttemptExecutionError>)
    requires
        forall|c: &AntennaControlCommand, t: u64| #[trigger] run.requires((c, t)),
    ensures
        match r {
            Err(e) => match resolve_spec(
                profile.switch_command.program_template@,
                strs_view(profile.switch_command.argument_templates@),
                context_values_spec(context),
            ) {
                Err(m) => e.role == AntennaControlRole::Switch && e.detail@ == m,
                Ok(_) => e.role == AntennaControlRole::Verification && (
                profile.verification_command matches Some(v) && (resolve_spec(
                    v.program_template@,
                    strs_view(v.argument_templates@),
                    context_values_spec(context),
                ) matches Err(m) && e.detail@ == m)),
            },
            Ok((switch, verification)) => {
                &&& invocation_of(
                    switch,
                    *profile,
                    AntennaControlRole::Switch,
                    profile.switch_command,
                    context,
                )
                &&& ran_with(switch, profile.timeout_seconds, *run)
                &&& verification is Some <==> (exit_zero(switch.disposition)
                    && profile.verification_command is Some)
                &&& verification matches Some(v) ==> ran_with(v, profile.timeout_seconds, *run)
                &&& verification matches Some(v) ==> invocation_of(
                    v,
                    *profile,
                    AntennaControlRole::Verification,
                    profile.verification_command->Some_0,
                    context,
                )
            },
        },
        resolve_spec(
            profile.switch_command.program_template@,
            strs_view(profile.switch_command.argument_templates@),
            context_values_spec(context),
        ) is Err ==> r is Err,
{
    let switch = match invocation(
        profile,
        AntennaControlRole::Switch,
        &profile.switch_command,
        context.clone_context(),
        run,
    ) {
        Ok(inv) => inv,
        Err(detail) => {
            return Err(AttemptExecutionError { role: AntennaControlRole::Switch, detail });
        },
    };
    if !switch.disposition.is_exit_zero() {
        return Ok((switch, None));
    }
    match &profile.verification_command {
        None => Ok((switch, None)),
        Some(template) => match invocation(
            profile,
            AntennaControlRole::Verification,
            template,
            context,
            run,
        ) {
            Ok(v) => Ok((switch, Some(v))),
            Err(detail) => Err(
                AttemptExecutionError { role: AntennaControlRole::Verification, detail },
            ),
        },
    }
}

} // verus!

verus! {

/// The JSON string literal of a text (`serde_json::to_string` of a `str`).
pub uninterp spec fn json_string(s: Seq<char>) -> Seq<char>;

/// `serde_json::to_string` of a string slice, which cannot fail.
#[verifier::external_body]
pub(crate) fn json_quote(s: &str) -> (r: String)
    ensures
        r@ == json_string(s@),
{
    serde_json::to_string(s).unwrap_or_default()
}

/// The JSON text of a disposition, tagged by `kind`.
pub open spec fn disposition_json(d: AntennaControlDisposition) -> Seq<char> {
    match d {
        AntennaControlDisposition::Exit { code } => "{\"kind\":\"exit\",\"code\":"@ + dec_signed(
            code as int,
        ) + "}"@,
        AntennaControlDisposition::Signaled { signal } => "{\"kind\":\"signaled\",\"signal\":"@ + (
        match signal {
            Some(s) => dec_signed(s as int),
            None => "null"@,
        }) + "}"@,
        AntennaControlDisposition::Timeout => "{\"kind\":\"timeout\"}"@,
        AntennaControlDisposition::SpawnError { message } =>
            "{\"kind\":\"spawn_error\",\"message\":"@ + json_string(message@) + "}"@,
    }
}

/// JSON text of a disposition.
pub fn disposition_text(d: &AntennaControlDisposition) -> (r: String)
    ensures
        r@ == disposition_json(*d),
{
    match d {
        AntennaControlDisposition::Exit { code } => {
            let mut s = owned("{\"kind\":\"exit\",\"code\":");
            let c = i32_text(*code);
            push_str(&mut s, c.as_str());
            push_str(&mut s, "}");
            s
        },
        AntennaControlDisposition::Signaled { signal } => {
            let mut s = owned("{\"kind\":\"signaled\",\"signal\":");
            match signal {
                Some(v) => {
                    let t = i32_text(*v);
                    push_str(&mut s, t.as_str());
                },
                None => push_str(&mut s, "null"),
            }
            push_str(&mut s, "}");
            s
        },
        AntennaControlDisposition::Timeout => owned("{\"kind\":\"timeout\"}"),
        AntennaControlDisposition::SpawnError { message } => {
            let mut s = owned("{\"kind\":\"spawn_error\",\"message\":");
            let m = json_quote(message.as_str());
            push_str(&mut s, m.as_str());
            push_str(&mut s, "}");
            s
        },
    }
}

pub open spec fn role_debug(r: AntennaControlRole) -> Seq<char> {
    match r {
        AntennaControlRole::Switch => "Switch"@,
        AntennaControlRole::Verification => "Verification"@,
    }
}

pub open spec fn encoding_debug(e: AntennaControlOutputEncoding) -> Seq<char> {
    match e {
        AntennaControlOutputEncoding::Utf8 => "Utf8"@,
        AntennaControlOutputEncoding::Base64 => "Base64"@,
    }
}

pub open spec fn bool_text(b: bool) -> Seq<char> {
    if b {
        "true"@
    } else {
        "false"@
    }
}

/// One line per argument, each preceded by a newline, numbered from `start`.
pub open spec fn argv_lines(args: Seq<Seq<char>>, start: nat) -> Seq<char>
    decreases args.len(),
{
    if args.len() == 0 {
        seq![]
    } else {
        "\nargv["@ + dec(start) + "]: "@ + args[0] + argv_lines(args.drop_first(), start + 1)
    }
}

pub open spec fn output_line(label: Seq<char>, o: AntennaControlOutput) -> Seq<char> {
    label + " ("@ + encoding_debug(o.encoding) + ", truncated="@ + bool_text(o.truncated) + "): "@
        + o.data@
}

/// The diagnostic text of one invocation: program, disposition, each
/// argument, and both output streams, one per line.
pub open spec fn invocation_diagnostic_spec(inv: AntennaControlInvocation) -> Seq<char> {
    role_debug(inv.role) + " program: "@ + inv.command.resolved_program@ + "\ndisposition: "@
        + disposition_json(inv.disposition) + argv_lines(
        strs_view(inv.command.resolved_arguments@),
        0,
    ) + "\n"@ + output_line("stdout"@, inv.stdout) + "\n"@ + output_line("stderr"@, inv.stderr)
}

fn push_output_line(s: &mut String, label: &str, o: &AntennaControlOutput)
    ensures
        final(s)@ == old(s)@ + output_line(label@, *o),
{
    push_str(s, label);
    push_str(s, " (");
    match o.encoding {
        AntennaControlOutputEncoding::Utf8 => push_str(s, "Utf8"),
        AntennaControlOutputEncoding::Base64 => push_str(s, "Base64"),
    }
    push_str(s, ", truncated=");
    if o.truncated {
        push_str(s, "true");
    } else {
        push_str(s, "false");
    }
    push_str(s, "): ");
    push_str(s, o.data.as_str());
    assert(final(s)@ =~= old(s)@ + output_line(label@, *o));
}

/// The diagnostic text of one invocation.
pub fn invocation_diagnostic(invocation: &AntennaControlInvocation) -> (r: String)
    ensures
        r@ == invocation_diagnostic_spec(*invocation),
{
    let mut s = String::new();
    match invocation.role {
        AntennaControlRole::Switch => push_str(&mut s, "Switch"),
        AntennaControlRole::Verification => push_str(&mut s, "Verification"),
    }
    push_str(&mut s, " program: ");
    push_str(&mut s, invocation.command.resolved_program.as_str());
    push_str(&mut s, "\ndisposition: ");
    let d = disposition_text(&invocation.disposition);
    push_str(&mut s, d.as_str());
    let ghost head = s@;
    let args = &invocation.command.resolved_arguments;
    let ghost sv = strs_view(args@);
    let n = args.len();
    assert(sv.skip(0) =~= sv);
    let mut k: usize = 0;
    while k < n
        invariant
            k <= n,
            n == args@.len(),
            sv == strs_view(args@),
            head + argv_lines(sv, 0) == s@ + argv_lines(sv.skip(k as int), k as nat),
        decreases n - k,
    {
        let ghost before = s@;
        assert(sv.skip(k as int).drop_first() =~= sv.skip(k + 1));
        assert(sv.skip(k as int)[0] == args@[k as int]@);
        push_str(&mut s, "\nargv[");
        let idx = u64_text(k as u64);
        push_str(&mut s, idx.as_str());
        push_str(&mut s, "]: ");
        push_str(&mut s, args[k].as_str());
        assert(before + argv_lines(sv.skip(k as int), k as nat) =~= s@ + argv_lines(
            sv.skip(k + 1),
            (k + 1) as nat,
        ));
        k = k + 1;
    }
    assert(sv.skip(n as int) =~= Seq::<Seq<char>>::empty());
    assert(s@ + argv_lines(sv.skip(n as int), n as nat) =~= s@);
    push_str(&mut s, "\n");
    push_output_line(&mut s, "stdout", &invocation.stdout);
    push_str(&mut s, "\n");
    push_output_line(&mut s, "stderr", &invocation.stderr);
    assert(s@ =~= invocation_diagnostic_spec(*invocation));
    s
}

/// The diagnostic of a whole attempt: the switch invocation, and the
/// verification invocation after a blank line when one ran.
pub open spec fn attempt_diagnostic_spec(
    switch: AntennaControlInvocation,
    verification: Option<AntennaControlInvocation>,
) -> Seq<char> {
    match verification {
        None => invocation_diagnostic_spec(switch),
        Some(v) => invocation_diagnostic_spec(switch) + "\n\n"@ + invocation_diagnostic_spec(v),
    }
}

pub fn attempt_diagnostic(
    switch: &AntennaControlInvocation,
    verification: Option<&AntennaControlInvocation>,
) -> (r: String)
    ensures
        r@ == attempt_diagnostic_spec(
            *switch,
            match verification {
                Some(v) => Some(*v),
                None => None,
            },
        ),
{
    let mut s = invocation_diagnostic(switch);
    if let Some(v) = verification {
        push_str(&mut s, "\n\n");
        let t = invocation_diagnostic(v);
        push_str(&mut s, t.as_str());
    }
    s
}

} // verus!
