//! Local antenna-controller profiles: drafts, normalization, the persisted
//! catalog and its validation, and target mappings for scheduled antennas.

use vstd::prelude::*;

use crate::command::{tokenize_command, tokenize_spec, TokenizeError, tokenize_error_text};
use crate::control_model::{
    strs_view, AntennaControlInvocationPolicy, COMMAND_ARGUMENT_COUNT_MAX,
    COMMAND_ARGUMENT_MAX_BYTES, COMMAND_TEMPLATE_MAX_BYTES,
};
use crate::errors::{plain_error, resource_error, SessionErrorKind, SessionErrorPayload};
use crate::text::{byte_len, byte_length, dec, is_blank, opt_view, owned, push_str, trim, trim_seq, u64_text};

verus! {

/// Version of the persisted local controller catalog.
pub const CATALOG_VERSION: u16 = 1;

/// Largest serialized controller catalog or controller view.
pub const CONTROLLER_IPC_BYTES: u64 = 524288;

/// Largest byte length of a profile name.
pub const PROFILE_NAME_MAX_BYTES: usize = 256;

/// Largest byte length of a profile identity or revision.
pub const PROFILE_IDENTITY_MAX_BYTES: usize = 256;

/// Largest byte length of an antenna label or target.
pub const TARGET_MAX_BYTES: usize = COMMAND_ARGUMENT_MAX_BYTES;

pub const PROFILE_TIMEOUT_MIN_SECONDS: u8 = 1;

pub const PROFILE_TIMEOUT_MAX_SECONDS: u8 = 60;

pub const DEFAULT_PROFILE_TIMEOUT_SECONDS: u8 = 10;

/// A command as the operator planned it: a program template and argument
/// templates, each interpolated separately.
#[derive(Debug, Clone, PartialEq, Eq)]
pub struct ControllerCommandTemplate {
    pub program_template: String,
    pub argument_templates: Vec<String>,
}

/// A saved local controller profile.
#[derive(Debug, Clone, PartialEq, Eq)]
pub struct ControllerProfile {
    pub profile_id: String,
    pub revision: String,
    pub name: String,
    pub switch_command: ControllerCommandTemplate,
    pub verification_command: Option<ControllerCommandTemplate>,
    pub timeout_seconds: u8,
}

/// A command as entered: either one line, or a program and its arguments.
#[derive(Debug, Clone, PartialEq, Eq)]
pub struct ControllerCommandDraft {
    pub one_line: String,
    pub program: String,
    pub arguments: Vec<String>,
}

/// A profile as entered.
#[derive(Debug, Clone, PartialEq, Eq)]
pub struct ControllerProfileDraft {
    pub profile_id: Option<String>,
    pub name: String,
    pub switch_command: ControllerCommandDraft,
    pub verification_command: Option<ControllerCommandDraft>,
    pub timeout_seconds: u8,
}

/// One antenna label and the controller target that selects it.
#[derive(Debug, Clone, PartialEq, Eq)]
pub struct ControllerTargetDraft {
    pub antenna_label: String,
    pub target: String,
}

/// The controller section of a session setup request.
#[derive(Debug, Clone, PartialEq, Eq)]
pub struct SetupControllerDraft {
    pub enabled: bool,
    pub arm_for_session: bool,
    pub invocation: AntennaControlInvocationPolicy,
    pub manual_review_required: bool,
    pub profile: ControllerProfileDraft,
    pub targets: Vec<ControllerTargetDraft>,
}

/// The timeout of a draft that does not name one.
pub fn default_timeout() -> (r: u8)
    ensures
        r == DEFAULT_PROFILE_TIMEOUT_SECONDS,
{
    DEFAULT_PROFILE_TIMEOUT_SECONDS
}

/// The invocation policy of a setup draft that does not name one.
pub fn default_invocation_policy() -> (r: AntennaControlInvocationPolicy)
    ensures
        r == AntennaControlInvocationPolicy::OperatorTriggered,
{
    AntennaControlInvocationPolicy::OperatorTriggered
}

/// Whether a setup draft that does not say so requires manual review.
pub fn default_manual_review_required() -> (r: bool)
    ensures
        r,
{
    true
}

/// The first template-level limit a command template breaks, if any.
pub open spec fn template_error(program: Seq<char>, arguments: Seq<Seq<char>>) -> Option<
    Seq<char>,
> {
    if program.len() == 0 || byte_len(program) > COMMAND_TEMPLATE_MAX_BYTES {
        Some("a command program template is empty or exceeds its fixed limit"@)
    } else if arguments.len() > COMMAND_ARGUMENT_COUNT_MAX {
        Some("a command has too many argument templates"@)
    } else if exists|i: int|
        0 <= i < arguments.len() && byte_len(#[trigger] arguments[i]) > COMMAND_ARGUMENT_MAX_BYTES {
        Some("a command argument template exceeds its fixed limit"@)
    } else {
        None
    }
}

pub open spec fn template_view_error(t: ControllerCommandTemplate) -> Option<Seq<char>> {
    template_error(t.program_template@, strs_view(t.argument_templates@))
}

/// Whether any string in `v` is longer than `limit` bytes.
pub fn any_longer_than(v: &Vec<String>, limit: usize) -> (r: bool)
    ensures
        r == exists|i: int|
            0 <= i < v@.len() && byte_len(#[trigger] strs_view(v@)[i]) > limit,
        strs_view(v@).len() == v@.len(),
{
    let n = v.len();
    for k in 0..n
        invariant
            n == v@.len(),
            forall|i: int| 0 <= i < k ==> byte_len(#[trigger] strs_view(v@)[i]) <= limit,
    {
        assert(strs_view(v@)[k as int] == v@[k as int]@);
        if byte_length(v[k].as_str()) > limit {
            assert(byte_len(strs_view(v@)[k as int]) > limit);
            return true;
        }
    }
    false
}

/// Checks the fixed limits of a stored command template.
pub fn validate_command_template(template: &ControllerCommandTemplate) -> (r: Result<(), String>)
    ensures
        match template_view_error(*template) {
            None => r is Ok,
            Some(m) => r matches Err(e) && e@ == m,
        },
{
    assert(strs_view(template.argument_templates@).len() == template.argument_templates@.len());
    let program_len = byte_length(template.program_template.as_str());
    if template.program_template.as_str().is_empty() || program_len > COMMAND_TEMPLATE_MAX_BYTES {
        return Err(owned("a command program template is empty or exceeds its fixed limit"));
    }
    if template.argument_templates.len() > COMMAND_ARGUMENT_COUNT_MAX {
        return Err(owned("a command has too many argument templates"));
    }
    if any_longer_than(&template.argument_templates, COMMAND_ARGUMENT_MAX_BYTES) {
        return Err(owned("a command argument template exceeds its fixed limit"));
    }
    Ok(())
}

} // verus!

verus! {

/// The program and arguments a command draft denotes: its one line, when
/// that is not blank, split by the tokenizer; otherwise its structured
/// program and arguments.
pub open spec fn draft_parts(d: ControllerCommandDraft) -> Result<
    (Seq<char>, Seq<Seq<char>>),
    Seq<char>,
> {
    if trim_seq(d.one_line@).len() == 0 {
        Ok((d.program@, strs_view(d.arguments@)))
    } else {
        match tokenize_spec(d.one_line@) {
            Err(e) => Err(tokenize_error_text(e)),
            Ok(t) => Ok((t[0], t.skip(1))),
        }
    }
}

/// The canonical template of a command draft, or why it is not valid.
pub open spec fn normalized_command(d: ControllerCommandDraft) -> Result<
    (Seq<char>, Seq<Seq<char>>),
    Seq<char>,
> {
    match draft_parts(d) {
        Err(m) => Err(m),
        Ok((program, arguments)) => if program.len() == 0 {
            Err("a command program is required"@)
        } else if byte_len(program) > COMMAND_TEMPLATE_MAX_BYTES {
            Err("the program template exceeds the fixed template limit"@)
        } else if arguments.len() > COMMAND_ARGUMENT_COUNT_MAX {
            Err("the command has too many arguments"@)
        } else if exists|i: int|
            0 <= i < arguments.len() && byte_len(#[trigger] arguments[i])
                > COMMAND_ARGUMENT_MAX_BYTES {
            Err("an argument template exceeds the fixed argument limit"@)
        } else {
            Ok((program, arguments))
        },
    }
}

/// The view of a template as its program and argument texts.
pub open spec fn template_parts(t: ControllerCommandTemplate) -> (Seq<char>, Seq<Seq<char>>) {
    (t.program_template@, strs_view(t.argument_templates@))
}

/// The normalization outcome as a comparable value.
pub open spec fn command_outcome(r: Result<ControllerCommandTemplate, String>) -> Result<
    (Seq<char>, Seq<Seq<char>>),
    Seq<char>,
> {
    match r {
        Ok(t) => Ok(template_parts(t)),
        Err(e) => Err(e@),
    }
}

/// A copy of a list of strings.
pub fn clone_strings(v: &Vec<String>) -> (r: Vec<String>)
    ensures
        strs_view(r@) == strs_view(v@),
{
    let mut out: Vec<String> = Vec::new();
    let n = v.len();
    for k in 0..n
        invariant
            n == v@.len(),
            strs_view(out@) == strs_view(v@).take(k as int),
    {
        let c = v[k].clone();
        proof {
            crate::command::lemma_push_view(out@, c);
        }
        out.push(c);
        assert(strs_view(v@)[k as int] == v@[k as int]@);
        assert(strs_view(out@) =~= strs_view(v@).take(k + 1));
    }
    assert(strs_view(v@).take(n as int) =~= strs_view(v@));
    out
}

/// Normalizes a one-line or structured command draft to its canonical
/// template.
pub fn normalize_command(draft: &ControllerCommandDraft) -> (r: Result<
    ControllerCommandTemplate,
    String,
>)
    ensures
        command_outcome(r) == normalized_command(*draft),
{
    let mut program_template: String;
    let mut argument_templates: Vec<String>;
    if is_blank(draft.one_line.as_str()) {
        proof {
            crate::text::lemma_trim_empty_iff_all_ws(draft.one_line@);
        }
        program_template = draft.program.clone();
        argument_templates = clone_strings(&draft.arguments);
    } else {
        proof {
            crate::text::lemma_trim_empty_iff_all_ws(draft.one_line@);
        }
        let mut tokens = match tokenize_command(draft.one_line.as_str()) {
            Ok(tokens) => tokens,
            Err(message) => {
                return Err(message);
            },
        };
        let ghost all = strs_view(tokens@);
        let program = tokens.remove(0);
        assert(strs_view(tokens@) =~= all.skip(1)) by {
            assert forall|i: int| 0 <= i < tokens@.len() implies #[trigger] strs_view(tokens@)[i]
                == all.skip(1)[i] by {
                assert(strs_view(tokens@)[i] == tokens@[i]@);
            }
        }
        program_template = program;
        argument_templates = tokens;
    }
    assert(strs_view(argument_templates@).len() == argument_templates@.len());
    if program_template.as_str().is_empty() {
        return Err(owned("a command program is required"));
    }
    if byte_length(program_template.as_str()) > COMMAND_TEMPLATE_MAX_BYTES {
        return Err(owned("the program template exceeds the fixed template limit"));
    }
    if argument_templates.len() > COMMAND_ARGUMENT_COUNT_MAX {
        return Err(owned("the command has too many arguments"));
    }
    if any_longer_than(&argument_templates, COMMAND_ARGUMENT_MAX_BYTES) {
        return Err(owned("an argument template exceeds the fixed argument limit"));
    }
    Ok(ControllerCommandTemplate { program_template, argument_templates })
}

} // verus!

verus! {

/// Equality of two string lists by their characters.
pub fn strings_eq(a: &Vec<String>, b: &Vec<String>) -> (r: bool)
    ensures
        r == (strs_view(a@) == strs_view(b@)),
{
    if a.len() != b.len() {
        assert(strs_view(a@).len() != strs_view(b@).len());
        return false;
    }
    let n = a.len();
    for k in 0..n
        invariant
            n == a@.len(),
            n == b@.len(),
            forall|i: int| 0 <= i < k ==> #[trigger] strs_view(a@)[i] == strs_view(b@)[i],
    {
        assert(strs_view(a@)[k as int] == a@[k as int]@);
        assert(strs_view(b@)[k as int] == b@[k as int]@);
        if !crate::text::str_eq(a[k].as_str(), b[k].as_str()) {
            return false;
        }
    }
    assert(strs_view(a@) =~= strs_view(b@));
    true
}

/// Equality of two command templates by their texts.
pub fn template_eq(a: &ControllerCommandTemplate, b: &ControllerCommandTemplate) -> (r: bool)
    ensures
        r == (template_parts(*a) == template_parts(*b)),
{
    crate::text::str_eq(a.program_template.as_str(), b.program_template.as_str()) && strings_eq(
        &a.argument_templates,
        &b.argument_templates,
    )
}

pub open spec fn opt_template_parts(t: Option<ControllerCommandTemplate>) -> Option<
    (Seq<char>, Seq<Seq<char>>),
> {
    match t {
        Some(t) => Some(template_parts(t)),
        None => None,
    }
}

/// Equality of two optional command templates by their texts.
pub fn opt_template_eq(
    a: &Option<ControllerCommandTemplate>,
    b: &Option<ControllerCommandTemplate>,
) -> (r: bool)
    ensures
        r == (opt_template_parts(*a) == opt_template_parts(*b)),
{
    match (a, b) {
        (Some(x), Some(y)) => template_eq(x, y),
        (None, None) => true,
        _ => false,
    }
}

/// The first reason a profile draft is invalid, in checking order.
pub open spec fn profile_draft_error(d: ControllerProfileDraft) -> Option<Seq<char>> {
    let name = trim_seq(d.name@);
    if name.len() == 0 || byte_len(name) > PROFILE_NAME_MAX_BYTES {
        Some("the controller profile name is required and bounded to 256 bytes"@)
    } else if !(PROFILE_TIMEOUT_MIN_SECONDS <= d.timeout_seconds <= PROFILE_TIMEOUT_MAX_SECONDS) {
        Some("the controller timeout must be between 1 and 60 seconds"@)
    } else if normalized_command(d.switch_command) is Err {
        Some(normalized_command(d.switch_command)->Err_0)
    } else if d.verification_command matches Some(v) && normalized_command(v) is Err {
        Some(normalized_command(d.verification_command->Some_0)->Err_0)
    } else {
        None
    }
}

/// The canonical verification template of a valid draft.
pub open spec fn normalized_verification(d: ControllerProfileDraft) -> Option<
    (Seq<char>, Seq<Seq<char>>),
> {
    match d.verification_command {
        Some(v) => Some(normalized_command(v)->Ok_0),
        None => None,
    }
}

/// An existing profile is kept at its revision when the draft changes none
/// of its name, commands, or timeout.
pub open spec fn draft_unchanged(d: ControllerProfileDraft, existing: ControllerProfile) -> bool {
    &&& existing.name@ == trim_seq(d.name@)
    &&& template_parts(existing.switch_command) == normalized_command(d.switch_command)->Ok_0
    &&& opt_template_parts(existing.verification_command) == normalized_verification(d)
    &&& existing.timeout_seconds == d.timeout_seconds
}

/// Normalizes a profile draft. The identity is the existing profile's, else
/// the draft's, else a new one; the revision is kept only when nothing
/// changed, else a new one is minted.
/// A profile is the normalized form of a valid draft: its trimmed name,
/// canonical commands and timeout, the existing identity (or the draft's,
/// or a new one), and the existing revision when nothing changed (or a new
/// one).
pub open spec fn normalized_profile<F: Fn(&str) -> String>(
    draft: ControllerProfileDraft,
    existing: Option<ControllerProfile>,
    new_id: F,
    p: ControllerProfile,
) -> bool {
    &&& p.name@ == trim_seq(draft.name@)
    &&& template_parts(p.switch_command) == normalized_command(
        draft.switch_command,
    )->Ok_0
    &&& opt_template_parts(p.verification_command) == normalized_verification(draft)
    &&& p.timeout_seconds == draft.timeout_seconds
    &&& match existing {
        Some(e) => p.profile_id@ == e.profile_id@,
        None => match draft.profile_id {
            Some(id) => p.profile_id@ == id@,
            None => new_id.ensures(("controller-profile",), p.profile_id),
        },
    }
    &&& match existing {
        Some(e) => if draft_unchanged(draft, e) {
            p.revision@ == e.revision@
        } else {
            new_id.ensures(("controller-revision",), p.revision)
        },
        None => new_id.ensures(("controller-revision",), p.revision),
    }
}

pub fn normalize_profile(
    draft: &ControllerProfileDraft,
    existing: Option<&ControllerProfile>,
    new_id: impl Fn(&str) -> String,
) -> (r: Result<ControllerProfile, String>)
    requires
        forall|prefix: &str| #[trigger] new_id.requires((prefix,)),
    ensures
        match profile_draft_error(*draft) {
            Some(m) => r matches Err(e) && e@ == m,
            None => r matches Ok(p) && (
                normalized_profile(*draft, match existing { Some(e) => Some(*e), None => None }, new_id, p)
            ),
        },
{
    let name = trim(draft.name.as_str());
    if name.as_str().is_empty() || byte_length(name.as_str()) > PROFILE_NAME_MAX_BYTES {
        return Err(owned("the controller profile name is required and bounded to 256 bytes"));
    }
    if !(PROFILE_TIMEOUT_MIN_SECONDS <= draft.timeout_seconds && draft.timeout_seconds
        <= PROFILE_TIMEOUT_MAX_SECONDS) {
        return Err(owned("the controller timeout must be between 1 and 60 seconds"));
    }
    let switch_command = match normalize_command(&draft.switch_command) {
        Ok(t) => t,
        Err(m) => {
            return Err(m);
        },
    };
    let verification_command = match &draft.verification_command {
        Some(v) => match normalize_command(v) {
            Ok(t) => Some(t),
            Err(m) => {
                return Err(m);
            },
        },
        None => None,
    };
    let profile_id = match existing {
        Some(e) => e.profile_id.clone(),
        None => match &draft.profile_id {
            Some(id) => id.clone(),
            None => new_id("controller-profile"),
        },
    };
    let unchanged = match existing {
        Some(e) => crate::text::str_eq(e.name.as_str(), name.as_str()) && template_eq(
            &e.switch_command,
            &switch_command,
        ) && opt_template_eq(&e.verification_command, &verification_command)
            && e.timeout_seconds == draft.timeout_seconds,
        None => false,
    };
    let revision = if unchanged {
        match existing {
            Some(e) => e.revision.clone(),
            None => new_id("controller-revision"),
        }
    } else {
        new_id("controller-revision")
    };
    Ok(
        ControllerProfile {
            profile_id,
            revision,
            name,
            switch_command,
            verification_command,
            timeout_seconds: draft.timeout_seconds,
        },
    )
}

} // verus!

verus! {

/// A saved association between one session path and a controller profile
/// revision, with the target for each antenna label.
#[derive(Debug, Clone, PartialEq, Eq)]
pub struct PersistedAssociation {
    pub source: String,
    pub session_id: String,
    pub profile_id: String,
    pub profile_revision: String,
    pub targets: Vec<(String, String)>,
}

/// The persisted local controller catalog.
#[derive(Debug, Clone, PartialEq, Eq)]
pub struct ControllerCatalog {
    pub version: u16,
    pub profiles: Vec<ControllerProfile>,
    pub associations: Vec<PersistedAssociation>,
}

impl Default for ControllerCatalog {
    fn default() -> (r: Self)
        ensures
            r.version == CATALOG_VERSION,
            r.profiles@.len() == 0,
            r.associations@.len() == 0,
    {
        ControllerCatalog { version: CATALOG_VERSION, profiles: Vec::new(), associations: Vec::new() }
    }
}

/// Whether an earlier profile than index `i` has the same identity.
pub open spec fn duplicate_profile_before(ps: Seq<ControllerProfile>, i: int) -> bool {
    exists|j: int| 0 <= j < i && (#[trigger] ps[j]).profile_id@ == ps[i].profile_id@
}

/// The first problem of the profile at index `i`, in checking order.
pub open spec fn profile_error(ps: Seq<ControllerProfile>, i: int) -> Option<Seq<char>> {
    let p = ps[i];
    if p.profile_id@.len() == 0 || byte_len(p.profile_id@) > PROFILE_IDENTITY_MAX_BYTES
        || p.revision@.len() == 0 || byte_len(p.revision@) > PROFILE_IDENTITY_MAX_BYTES {
        Some("a profile identity or revision is empty or exceeds its fixed limit"@)
    } else if duplicate_profile_before(ps, i) {
        Some("controller profile identities must be unique"@)
    } else if trim_seq(p.name@).len() == 0 || byte_len(p.name@) > PROFILE_NAME_MAX_BYTES {
        Some("a controller profile name is empty or exceeds its fixed limit"@)
    } else if !(PROFILE_TIMEOUT_MIN_SECONDS <= p.timeout_seconds <= PROFILE_TIMEOUT_MAX_SECONDS) {
        Some("a controller timeout is outside one through sixty seconds"@)
    } else if template_view_error(p.switch_command) is Some {
        template_view_error(p.switch_command)
    } else if p.verification_command matches Some(v) && template_view_error(v) is Some {
        template_view_error(p.verification_command->Some_0)
    } else {
        None
    }
}

/// The first profile problem at or after index `i`.
pub open spec fn profiles_error_from(ps: Seq<ControllerProfile>, i: int) -> Option<Seq<char>>
    decreases ps.len() - i,
{
    if i < 0 || i >= ps.len() {
        None
    } else {
        match profile_error(ps, i) {
            Some(m) => Some(m),
            None => profiles_error_from(ps, i + 1),
        }
    }
}

/// Whether a label or target is unusable in a saved mapping.
pub open spec fn bad_mapping_text(s: Seq<char>) -> bool {
    trim_seq(s).len() == 0 || byte_len(s) > TARGET_MAX_BYTES
}

/// Whether an earlier association than index `i` is for the same session path.
pub open spec fn duplicate_association_before(xs: Seq<PersistedAssociation>, i: int) -> bool {
    exists|j: int|
        0 <= j < i && (#[trigger] xs[j]).source@ == xs[i].source@ && xs[j].session_id@
            == xs[i].session_id@
}

/// The first problem of the association at index `i`, in checking order.
pub open spec fn association_error(c: ControllerCatalog, i: int) -> Option<Seq<char>> {
    let a = c.associations@[i];
    if a.source@.len() == 0 || a.session_id@.len() == 0 || a.profile_id@.len() == 0
        || a.profile_revision@.len() == 0 {
        Some("a saved controller association has an empty identity"@)
    } else if !exists|k: int|
        0 <= k < c.profiles@.len() && (#[trigger] c.profiles@[k]).profile_id@ == a.profile_id@ {
        Some("a saved controller association references an unknown profile"@)
    } else if duplicate_association_before(c.associations@, i) {
        Some("saved controller associations must be unique per session path"@)
    } else if a.targets@.len() == 0 || exists|t: int|
        0 <= t < a.targets@.len() && (bad_mapping_text((#[trigger] a.targets@[t]).0@)
            || bad_mapping_text(a.targets@[t].1@)) {
        Some("a saved controller association has an invalid target mapping"@)
    } else {
        None
    }
}

/// The first association problem at or after index `i`.
pub open spec fn associations_error_from(c: ControllerCatalog, i: int) -> Option<Seq<char>>
    decreases c.associations@.len() - i,
{
    if i < 0 || i >= c.associations@.len() {
        None
    } else {
        match association_error(c, i) {
            Some(m) => Some(m),
            None => associations_error_from(c, i + 1),
        }
    }
}

/// The first problem of a catalog: profiles first, then associations.
pub open spec fn catalog_error(c: ControllerCatalog) -> Option<Seq<char>> {
    match profiles_error_from(c.profiles@, 0) {
        Some(m) => Some(m),
        None => associations_error_from(c, 0),
    }
}

fn profile_id_before(ps: &Vec<ControllerProfile>, i: usize) -> (r: bool)
    requires
        i < ps@.len(),
    ensures
        r == duplicate_profile_before(ps@, i as int),
{
    for j in 0..i
        invariant
            i < ps@.len(),
            forall|k: int| 0 <= k < j ==> (#[trigger] ps@[k]).profile_id@ != ps@[i as int].profile_id@,
    {
        if crate::text::str_eq(ps[j].profile_id.as_str(), ps[i].profile_id.as_str()) {
            return true;
        }
    }
    false
}

fn profile_check(ps: &Vec<ControllerProfile>, i: usize) -> (r: Result<(), String>)
    requires
        i < ps@.len(),
    ensures
        match profile_error(ps@, i as int) {
            None => r is Ok,
            Some(m) => r matches Err(e) && e@ == m,
        },
{
    let p = &ps[i];
    if p.profile_id.as_str().is_empty() || byte_length(p.profile_id.as_str())
        > PROFILE_IDENTITY_MAX_BYTES || p.revision.as_str().is_empty() || byte_length(
        p.revision.as_str(),
    ) > PROFILE_IDENTITY_MAX_BYTES {
        return Err(owned("a profile identity or revision is empty or exceeds its fixed limit"));
    }
    if profile_id_before(ps, i) {
        return Err(owned("controller profile identities must be unique"));
    }
    if is_blank(p.name.as_str()) || byte_length(p.name.as_str()) > PROFILE_NAME_MAX_BYTES {
        return Err(owned("a controller profile name is empty or exceeds its fixed limit"));
    }
    if !(PROFILE_TIMEOUT_MIN_SECONDS <= p.timeout_seconds && p.timeout_seconds
        <= PROFILE_TIMEOUT_MAX_SECONDS) {
        return Err(owned("a controller timeout is outside one through sixty seconds"));
    }
    validate_command_template(&p.switch_command)?;
    if let Some(verification) = &p.verification_command {
        validate_command_template(verification)?;
    }
    Ok(())
}

fn known_profile(ps: &Vec<ControllerProfile>, id: &str) -> (r: bool)
    ensures
        r == exists|k: int| 0 <= k < ps@.len() && (#[trigger] ps@[k]).profile_id@ == id@,
{
    let n = ps.len();
    for k in 0..n
        invariant
            n == ps@.len(),
            forall|j: int| 0 <= j < k ==> (#[trigger] ps@[j]).profile_id@ != id@,
    {
        if crate::text::str_eq(ps[k].profile_id.as_str(), id) {
            return true;
        }
    }
    false
}

fn association_before(xs: &Vec<PersistedAssociation>, i: usize) -> (r: bool)
    requires
        i < xs@.len(),
    ensures
        r == duplicate_association_before(xs@, i as int),
{
    for j in 0..i
        invariant
            i < xs@.len(),
            forall|k: int|
                0 <= k < j ==> !((#[trigger] xs@[k]).source@ == xs@[i as int].source@
                    && xs@[k].session_id@ == xs@[i as int].session_id@),
    {
        if crate::text::str_eq(xs[j].source.as_str(), xs[i].source.as_str()) && crate::text::str_eq(
            xs[j].session_id.as_str(),
            xs[i].session_id.as_str(),
        ) {
            return true;
        }
    }
    false
}

fn bad_text(s: &str) -> (r: bool)
    ensures
        r == bad_mapping_text(s@),
{
    is_blank(s) || byte_length(s) > TARGET_MAX_BYTES
}

fn bad_targets(targets: &Vec<(String, String)>) -> (r: bool)
    ensures
        r == (targets@.len() == 0 || exists|t: int|
            0 <= t < targets@.len() && (bad_mapping_text((#[trigger] targets@[t]).0@)
                || bad_mapping_text(targets@[t].1@))),
{
    if targets.len() == 0 {
        return true;
    }
    let n = targets.len();
    for t in 0..n
        invariant
            n == targets@.len(),
            forall|k: int|
                0 <= k < t ==> !(bad_mapping_text((#[trigger] targets@[k]).0@) || bad_mapping_text(
                    targets@[k].1@,
                )),
    {
        if bad_text(targets[t].0.as_str()) || bad_text(targets[t].1.as_str()) {
            return true;
        }
    }
    false
}

fn association_check(c: &ControllerCatalog, i: usize) -> (r: Result<(), String>)
    requires
        i < c.associations@.len(),
    ensures
        match association_error(*c, i as int) {
            None => r is Ok,
            Some(m) => r matches Err(e) && e@ == m,
        },
{
    let a = &c.associations[i];
    if a.source.as_str().is_empty() || a.session_id.as_str().is_empty()
        || a.profile_id.as_str().is_empty() || a.profile_revision.as_str().is_empty() {
        return Err(owned("a saved controller association has an empty identity"));
    }
    if !known_profile(&c.profiles, a.profile_id.as_str()) {
        return Err(owned("a saved controller association references an unknown profile"));
    }
    if association_before(&c.associations, i) {
        return Err(owned("saved controller associations must be unique per session path"));
    }
    if bad_targets(&a.targets) {
        return Err(owned("a saved controller association has an invalid target mapping"));
    }
    Ok(())
}

/// Checks every fixed limit and uniqueness rule of a catalog; the error names
/// the first problem found.
pub fn validate_catalog(catalog: &ControllerCatalog) -> (r: Result<(), String>)
    ensures
        match catalog_error(*catalog) {
            None => r is Ok,
            Some(m) => r matches Err(e) && e@ == m,
        },
        r is Ok <==> crate::laws::catalog_valid(*catalog),
{
    proof {
        crate::laws::law_catalog_validation(*catalog);
    }
    let n = catalog.profiles.len();
    for i in 0..n
        invariant
            n == catalog.profiles@.len(),
            profiles_error_from(catalog.profiles@, 0) == profiles_error_from(
                catalog.profiles@,
                i as int,
            ),
    {
        profile_check(&catalog.profiles, i)?;
    }
    let m = catalog.associations.len();
    for i in 0..m
        invariant
            m == catalog.associations@.len(),
            profiles_error_from(catalog.profiles@, 0) is None,
            associations_error_from(*catalog, 0) == associations_error_from(*catalog, i as int),
    {
        association_check(catalog, i)?;
    }
    Ok(())
}

} // verus!

verus! {

pub open spec fn keeps_profile(id: Seq<char>) -> spec_fn(ControllerProfile) -> bool {
    |p: ControllerProfile| p.profile_id@ != id
}

pub open spec fn keeps_association_of(id: Seq<char>) -> spec_fn(PersistedAssociation) -> bool {
    |a: PersistedAssociation| a.profile_id@ != id
}

fn without_profile(ps: Vec<ControllerProfile>, id: &str) -> (r: (Vec<ControllerProfile>, bool))
    ensures
        r.0@ == ps@.filter(keeps_profile(id@)),
        r.1 == exists|k: int| 0 <= k < ps@.len() && (#[trigger] ps@[k]).profile_id@ == id@,
{
    let ghost orig = ps@;
    let mut rest = ps;
    let mut out: Vec<ControllerProfile> = Vec::new();
    let mut found = false;
    let n = rest.len();
    let mut k: usize = 0;
    assert(orig.take(0).filter(keeps_profile(id@)) =~= Seq::<ControllerProfile>::empty());
    assert(orig.skip(0) =~= orig);
    while k < n
        invariant
            k <= n,
            n == orig.len(),
            rest@ == orig.skip(k as int),
            out@ == orig.take(k as int).filter(keeps_profile(id@)),
            found == exists|j: int| 0 <= j < k && (#[trigger] orig[j]).profile_id@ == id@,
        decreases n - k,
    {
        let p = rest.remove(0);
        assert(p == orig[k as int]);
        assert(rest@ =~= orig.skip(k + 1));
        assert(orig.take(k + 1).drop_last() =~= orig.take(k as int));
        reveal_with_fuel(Seq::<ControllerProfile>::filter, 1);
        if crate::text::str_eq(p.profile_id.as_str(), id) {
            found = true;
        } else {
            out.push(p);
        }
        k = k + 1;
    }
    assert(orig.take(n as int) =~= orig);
    (out, found)
}

fn without_associations_of(xs: Vec<PersistedAssociation>, id: &str) -> (r: Vec<
    PersistedAssociation,
>)
    ensures
        r@ == xs@.filter(keeps_association_of(id@)),
{
    let ghost orig = xs@;
    let mut rest = xs;
    let mut out: Vec<PersistedAssociation> = Vec::new();
    let n = rest.len();
    let mut k: usize = 0;
    assert(orig.take(0).filter(keeps_association_of(id@)) =~= Seq::<PersistedAssociation>::empty());
    assert(orig.skip(0) =~= orig);
    while k < n
        invariant
            k <= n,
            n == orig.len(),
            rest@ == orig.skip(k as int),
            out@ == orig.take(k as int).filter(keeps_association_of(id@)),
        decreases n - k,
    {
        let a = rest.remove(0);
        assert(a == orig[k as int]);
        assert(rest@ =~= orig.skip(k + 1));
        assert(orig.take(k + 1).drop_last() =~= orig.take(k as int));
        reveal_with_fuel(Seq::<PersistedAssociation>::filter, 1);
        if !crate::text::str_eq(a.profile_id.as_str(), id) {
            out.push(a);
        }
        k = k + 1;
    }
    assert(orig.take(n as int) =~= orig);
    out
}

/// Deletes a profile and every saved session association that references
/// it; reports whether the profile existed.
pub fn remove_profile(catalog: &mut ControllerCatalog, profile_id: &str) -> (r: bool)
    ensures
        r == exists|k: int|
            0 <= k < old(catalog).profiles@.len() && (#[trigger] old(
                catalog,
            ).profiles@[k]).profile_id@ == profile_id@,
        final(catalog).version == old(catalog).version,
        final(catalog).profiles@ == old(catalog).profiles@.filter(keeps_profile(profile_id@)),
        final(catalog).associations@ == old(catalog).associations@.filter(
            keeps_association_of(profile_id@),
        ),
{
    let mut profiles: Vec<ControllerProfile> = Vec::new();
    std::mem::swap(&mut profiles, &mut catalog.profiles);
    let (kept, found) = without_profile(profiles, profile_id);
    catalog.profiles = kept;
    let mut associations: Vec<PersistedAssociation> = Vec::new();
    std::mem::swap(&mut associations, &mut catalog.associations);
    catalog.associations = without_associations_of(associations, profile_id);
    found
}

} // verus!

verus! {

/// Catalog order: by name, then by identity.
pub open spec fn profile_lt(p: ControllerProfile, q: ControllerProfile) -> bool {
    crate::text::seq_lt(p.name@, q.name@) || (p.name@ == q.name@ && crate::text::seq_lt(
        p.profile_id@,
        q.profile_id@,
    ))
}

/// Profiles appear in catalog order.
pub open spec fn profiles_sorted(s: Seq<ControllerProfile>) -> bool {
    forall|i: int, j: int| 0 <= i < j < s.len() ==> !profile_lt(#[trigger] s[j], #[trigger] s[i])
}

proof fn lemma_profile_lt_transitive(a: ControllerProfile, b: ControllerProfile, c: ControllerProfile)
    requires
        profile_lt(a, b),
        profile_lt(b, c),
    ensures
        profile_lt(a, c),
{
    if crate::text::seq_lt(a.name@, b.name@) && crate::text::seq_lt(b.name@, c.name@) {
        crate::text::lemma_seq_lt_transitive(a.name@, b.name@, c.name@);
    } else if crate::text::seq_lt(a.name@, b.name@) {
    } else if crate::text::seq_lt(b.name@, c.name@) {
    } else {
        crate::text::lemma_seq_lt_transitive(a.profile_id@, b.profile_id@, c.profile_id@);
    }
}

fn profile_less(p: &ControllerProfile, q: &ControllerProfile) -> (r: bool)
    ensures
        r == profile_lt(*p, *q),
{
    crate::text::str_less(p.name.as_str(), q.name.as_str()) || (crate::text::str_eq(
        p.name.as_str(),
        q.name.as_str(),
    ) && crate::text::str_less(p.profile_id.as_str(), q.profile_id.as_str()))
}

fn insert_in_order(out: &mut Vec<ControllerProfile>, p: ControllerProfile)
    requires
        profiles_sorted(old(out)@),
    ensures
        profiles_sorted(final(out)@),
        final(out)@.to_multiset() == old(out)@.to_multiset().insert(p),
{
    let n = out.len();
    let mut pos: usize = 0;
    while pos < n && !profile_less(&p, &out[pos])
        invariant
            pos <= n,
            n == out@.len(),
            out@ == old(out)@,
            forall|i: int| 0 <= i < pos ==> !profile_lt(p, #[trigger] out@[i]),
        decreases n - pos,
    {
        pos = pos + 1;
    }
    let ghost before = out@;
    proof {
        vstd::seq_lib::to_multiset_insert(before, pos as int, p);
    }
    out.insert(pos, p);
    assert(out@ == before.insert(pos as int, p));
    assert forall|i: int, j: int| 0 <= i < j < out@.len() implies !profile_lt(
        #[trigger] out@[j],
        #[trigger] out@[i],
    ) by {
        if j == pos {
            assert(out@[i] == before[i]);
        } else if i == pos {
            assert(out@[j] == before[j - 1]);
            assert(pos < n);
            if profile_lt(out@[j], p) {
                if j - 1 > pos {
                    lemma_profile_lt_transitive(before[j - 1], p, before[pos as int]);
                } else {
                    lemma_profile_lt_transitive(before[j - 1], p, before[pos as int]);
                    crate::text::lemma_seq_lt_irreflexive(before[pos as int].name@);
                    crate::text::lemma_seq_lt_irreflexive(before[pos as int].profile_id@);
                }
            }
        } else {
            let bi = if i < pos { i } else { i - 1 };
            let bj = if j < pos { j } else { j - 1 };
            assert(out@[i] == before[bi]);
            assert(out@[j] == before[bj]);
        }
    }
}

/// The profiles in catalog order (a stable sort by name, then identity).
pub fn sort_profiles(v: Vec<ControllerProfile>) -> (r: Vec<ControllerProfile>)
    ensures
        profiles_sorted(r@),
        r@.to_multiset() == v@.to_multiset(),
        r@.len() == v@.len(),
{
    let ghost orig = v@;
    let mut rest = v;
    let mut out: Vec<ControllerProfile> = Vec::new();
    let n = rest.len();
    let mut k: usize = 0;
    assert(orig.skip(0) =~= orig);
    assert(orig.take(0) =~= Seq::<ControllerProfile>::empty());
    proof {
        orig.take(0).to_multiset_ensures();
    }
    while k < n
        invariant
            k <= n,
            n == orig.len(),
            rest@ == orig.skip(k as int),
            profiles_sorted(out@),
            out@.to_multiset() == orig.take(k as int).to_multiset(),
        decreases n - k,
    {
        let p = rest.remove(0);
        assert(p == orig[k as int]);
        assert(rest@ =~= orig.skip(k + 1));
        proof {
            assert(orig.take(k + 1) =~= orig.take(k as int).push(p));
            vstd::seq_lib::to_multiset_build(orig.take(k as int), p);
        }
        insert_in_order(&mut out, p);
        k = k + 1;
    }
    assert(orig.take(n as int) =~= orig);
    proof {
        out@.to_multiset_ensures();
        orig.to_multiset_ensures();
    }
    out
}

} // verus!

verus! {

/// A profile and its target mapping, prepared during session setup.
#[derive(Debug, Clone, PartialEq, Eq)]
pub struct PreparedSetupController {
    pub profile: ControllerProfile,
    pub targets: Vec<(String, String)>,
    pub arm_for_session: bool,
}

/// Replaces any profile with the same identity by `profile` and restores
/// catalog order.
pub fn upsert_profile(profiles: Vec<ControllerProfile>, profile: ControllerProfile) -> (r: Vec<
    ControllerProfile,
>)
    ensures
        profiles_sorted(r@),
        r@.to_multiset() == profiles@.filter(keeps_profile(profile.profile_id@)).push(
            profile,
        ).to_multiset(),
{
    let id = profile.profile_id.clone();
    let (mut kept, _) = without_profile(profiles, id.as_str());
    kept.push(profile);
    sort_profiles(kept)
}

pub open spec fn keeps_other_session(source: Seq<char>, session_id: Seq<char>) -> spec_fn(
    PersistedAssociation,
) -> bool {
    |a: PersistedAssociation| !(a.session_id@ == session_id && a.source@ == source)
}

fn without_session(xs: Vec<PersistedAssociation>, source: &str, session_id: &str) -> (r: Vec<
    PersistedAssociation,
>)
    ensures
        r@ == xs@.filter(keeps_other_session(source@, session_id@)),
{
    let ghost orig = xs@;
    let ghost pred = keeps_other_session(source@, session_id@);
    let mut rest = xs;
    let mut out: Vec<PersistedAssociation> = Vec::new();
    let n = rest.len();
    let mut k: usize = 0;
    assert(orig.take(0).filter(pred) =~= Seq::<PersistedAssociation>::empty());
    assert(orig.skip(0) =~= orig);
    while k < n
        invariant
            k <= n,
            n == orig.len(),
            pred == keeps_other_session(source@, session_id@),
            rest@ == orig.skip(k as int),
            out@ == orig.take(k as int).filter(pred),
        decreases n - k,
    {
        let a = rest.remove(0);
        assert(a == orig[k as int]);
        assert(rest@ =~= orig.skip(k + 1));
        assert(orig.take(k + 1).drop_last() =~= orig.take(k as int));
        reveal_with_fuel(Seq::<PersistedAssociation>::filter, 1);
        if !(crate::text::str_eq(a.session_id.as_str(), session_id) && crate::text::str_eq(
            a.source.as_str(),
            source,
        )) {
            out.push(a);
        }
        k = k + 1;
    }
    assert(orig.take(n as int) =~= orig);
    out
}

/// Saves the prepared profile into the catalog and associates it with
/// one session path: the profile replaces any of the same identity (catalog
/// order is restored) and the association replaces any for the same session
/// path.
pub fn persist_profile_and_association(
    catalog: ControllerCatalog,
    source: &str,
    session_id: &str,
    prepared: PreparedSetupController,
) -> (r: ControllerCatalog)
    ensures
        r.version == catalog.version,
        profiles_sorted(r.profiles@),
        r.profiles@.to_multiset() == catalog.profiles@.filter(
            keeps_profile(prepared.profile.profile_id@),
        ).push(prepared.profile).to_multiset(),
        r.associations@.len() == catalog.associations@.filter(
            keeps_other_session(source@, session_id@),
        ).len() + 1,
        r.associations@.drop_last() == catalog.associations@.filter(
            keeps_other_session(source@, session_id@),
        ),
        r.associations@.last().source@ == source@,
        r.associations@.last().session_id@ == session_id@,
        r.associations@.last().profile_id@ == prepared.profile.profile_id@,
        r.associations@.last().profile_revision@ == prepared.profile.revision@,
        r.associations@.last().targets == prepared.targets,
{
    let ControllerCatalog { version, profiles, associations } = catalog;
    let PreparedSetupController { profile, targets, arm_for_session: _ } = prepared;
    let association = PersistedAssociation {
        source: owned(source),
        session_id: owned(session_id),
        profile_id: profile.profile_id.clone(),
        profile_revision: profile.revision.clone(),
        targets,
    };
    let profiles = upsert_profile(profiles, profile);
    let mut associations = without_session(associations, source, session_id);
    let ghost kept = associations@;
    associations.push(association);
    assert(associations@.drop_last() =~= kept);
    ControllerCatalog { version, profiles, associations }
}

} // verus!

verus! {

/// The catalog file in the application-data directory.
pub fn catalog_path(app_data_dir: &str) -> (r: String)
    ensures
        r@ == crate::paths::joined(app_data_dir@, "antenna-controller-profiles.json"@),
{
    proof {
        reveal_strlit("antenna-controller-profiles.json");
    }
    crate::paths::path_join(app_data_dir, "antenna-controller-profiles.json")
}

/// The previous catalog file, kept while the catalog is replaced.
pub fn previous_catalog_path(app_data_dir: &str) -> (r: String)
    ensures
        r@ == crate::paths::joined(app_data_dir@, "antenna-controller-profiles.previous.json"@),
{
    proof {
        reveal_strlit("antenna-controller-profiles.previous.json");
    }
    crate::paths::path_join(app_data_dir, "antenna-controller-profiles.previous.json")
}

/// The error of a catalog file larger than the shell accepts.
pub open spec fn oversized_catalog(e: SessionErrorPayload, length: u64) -> bool {
    resource_error(
        e,
        SessionErrorKind::Resource,
        "resource.desktop.controller_catalog_bytes"@,
        "antenna_controller_catalog"@,
        CONTROLLER_IPC_BYTES,
        Some(length),
        "bytes"@,
    )
}

/// A catalog file of `length` bytes may be read or written only within the
/// shell's byte limit.
pub fn check_catalog_bytes(length: u64) -> (r: Result<(), SessionErrorPayload>)
    ensures
        length <= CONTROLLER_IPC_BYTES ==> r is Ok,
        length > CONTROLLER_IPC_BYTES ==> (r matches Err(e) && oversized_catalog(e, length)),
{
    if length > CONTROLLER_IPC_BYTES {
        return Err(SessionErrorPayload::resource(
            SessionErrorKind::Resource,
            "resource.desktop.controller_catalog_bytes",
            "antenna_controller_catalog",
            CONTROLLER_IPC_BYTES,
            Some(length),
            "bytes",
        ));
    }
    Ok(())
}

/// The error of a catalog whose rules are broken.
pub open spec fn invalid_catalog(e: SessionErrorPayload, detail: Seq<char>) -> bool {
    plain_error(e, SessionErrorKind::Validation, "Local antenna-controller profiles are not valid."@, detail)
}

/// Checks a catalog before it is written.
pub fn check_catalog_for_write(catalog: &ControllerCatalog) -> (r: Result<(), SessionErrorPayload>)
    ensures
        catalog_error(*catalog) is None ==> r is Ok,
        catalog_error(*catalog) matches Some(m) ==> (r matches Err(e) && invalid_catalog(e, m)),
{
    match validate_catalog(catalog) {
        Ok(()) => Ok(()),
        Err(detail) => Err(SessionErrorPayload::new(
            SessionErrorKind::Validation,
            "Local antenna-controller profiles are not valid.",
            detail.as_str(),
        )),
    }
}

/// Admits a catalog read from disk: only the current version, and only when
/// every rule holds.
pub fn admit_catalog(catalog: ControllerCatalog) -> (r: Result<ControllerCatalog, SessionErrorPayload>)
    ensures
        catalog.version != CATALOG_VERSION ==> (r matches Err(e) && plain_error(
            e,
            SessionErrorKind::Unsupported,
            "Local antenna-controller profiles use an unsupported version."@,
            "catalog version "@ + dec(catalog.version as nat),
        )),
        catalog.version == CATALOG_VERSION ==> match catalog_error(catalog) {
            None => r == Ok::<ControllerCatalog, SessionErrorPayload>(catalog),
            Some(m) => r matches Err(e) && invalid_catalog(e, m),
        },
{
    if catalog.version != CATALOG_VERSION {
        let mut detail = owned("catalog version ");
        let v = u64_text(catalog.version as u64);
        push_str(&mut detail, v.as_str());
        proof {
            reveal_strlit("catalog version ");
        }
        return Err(SessionErrorPayload::new(
            SessionErrorKind::Unsupported,
            "Local antenna-controller profiles use an unsupported version.",
            detail.as_str(),
        ));
    }
    check_catalog_for_write(&catalog)?;
    Ok(catalog)
}

} // verus!
