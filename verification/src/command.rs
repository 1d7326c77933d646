//! Controller command text: shell-free tokenization of one-line commands,
//! placeholder interpolation, and expansion of a command template for one
//! WSPR cycle intention.

use vstd::prelude::*;

use crate::control_model::{
    band_name, direction_name, mode_name, strs_view, AntennaControlCommand, AntennaControlContext,
    Band, ControlSession, WsprCycleIntent, COMMAND_ARGUMENT_MAX_BYTES, COMMAND_INVOCATION_MAX_BYTES,
    COMMAND_PROGRAM_MAX_BYTES,
};
use crate::profiles::ControllerCommandTemplate;
use crate::text::{
    byte_len, byte_length, chars_of, dec, is_whitespace, is_ws, owned, push_char, push_str, str_eq,
    u64_text,
};

verus! {

/// An open quotation while tokenizing.
#[derive(Debug, Clone, Copy, PartialEq, Eq, Structural)]
pub enum Quote {
    Single,
    Double,
}

/// The tokenizer state after a prefix of the input.
pub struct TokState {
    pub tokens: Seq<Seq<char>>,
    pub token: Seq<char>,
    pub quote: Option<Quote>,
    pub escaped: bool,
    pub started: bool,
}

pub open spec fn tok_init() -> TokState {
    TokState { tokens: seq![], token: seq![], quote: None, escaped: false, started: false }
}

/// One character of tokenization. Only backslashes and single or double
/// quotes group characters; whitespace outside quotes separates tokens; no
/// other character has a special meaning.
pub open spec fn tok_step(st: TokState, c: char) -> TokState {
    if st.escaped {
        TokState { token: st.token.push(c), started: true, escaped: false, ..st }
    } else if c == '\\' {
        TokState { escaped: true, started: true, ..st }
    } else {
        match st.quote {
            Some(Quote::Single) => if c == '\'' {
                TokState { quote: None, ..st }
            } else {
                TokState { token: st.token.push(c), started: true, ..st }
            },
            Some(Quote::Double) => if c == '"' {
                TokState { quote: None, ..st }
            } else {
                TokState { token: st.token.push(c), started: true, ..st }
            },
            None => if c == '\'' {
                TokState { quote: Some(Quote::Single), started: true, ..st }
            } else if c == '"' {
                TokState { quote: Some(Quote::Double), started: true, ..st }
            } else if is_ws(c) {
                if st.started {
                    TokState {
                        tokens: st.tokens.push(st.token),
                        token: seq![],
                        started: false,
                        ..st
                    }
                } else {
                    st
                }
            } else {
                TokState { token: st.token.push(c), started: true, ..st }
            },
        }
    }
}

/// The tokenizer state after the whole input.
pub open spec fn tok_run(input: Seq<char>) -> TokState
    decreases input.len(),
{
    if input.len() == 0 {
        tok_init()
    } else {
        tok_step(tok_run(input.drop_last()), input.last())
    }
}

/// Why a one-line command could not be tokenized.
#[derive(Debug, Clone, Copy, PartialEq, Eq, Structural)]
pub enum TokenizeError {
    TrailingBackslash,
    UnclosedQuote,
    NoProgram,
}

pub open spec fn tokenize_error_text(e: TokenizeError) -> Seq<char> {
    match e {
        TokenizeError::TrailingBackslash => "a trailing backslash must escape another character"@,
        TokenizeError::UnclosedQuote => "quoted command text is not closed"@,
        TokenizeError::NoProgram => "a command must contain a program"@,
    }
}

/// The tokens of a one-line command, or why there are none.
pub open spec fn tokenize_spec(input: Seq<char>) -> Result<Seq<Seq<char>>, TokenizeError> {
    let st = tok_run(input);
    if st.escaped {
        Err(TokenizeError::TrailingBackslash)
    } else if st.quote is Some {
        Err(TokenizeError::UnclosedQuote)
    } else {
        let tokens = if st.started {
            st.tokens.push(st.token)
        } else {
            st.tokens
        };
        if tokens.len() == 0 {
            Err(TokenizeError::NoProgram)
        } else {
            Ok(tokens)
        }
    }
}

proof fn lemma_tok_run_step(s: Seq<char>, i: int)
    requires
        0 <= i < s.len(),
    ensures
        tok_run(s.take(i + 1)) == tok_step(tok_run(s.take(i)), s[i]),
{
    assert(s.take(i + 1).drop_last() =~= s.take(i));
    assert(s.take(i + 1).last() == s[i]);
}

pub proof fn lemma_push_view(v: Seq<String>, s: String)
    ensures
        strs_view(v.push(s)) == strs_view(v).push(s@),
{
    assert(strs_view(v.push(s)) =~= strs_view(v).push(s@));
}

/// Splits a one-line command into program and arguments without any shell
/// semantics.
pub fn tokenize_command(input: &str) -> (r: Result<Vec<String>, String>)
    ensures
        match r {
            Ok(tokens) => tokenize_spec(input@) == Ok::<Seq<Seq<char>>, TokenizeError>(
                strs_view(tokens@),
            ),
            Err(message) => tokenize_spec(input@) is Err && message@ == tokenize_error_text(
                tokenize_spec(input@)->Err_0,
            ),
        },
{
    let mut tokens: Vec<String> = Vec::new();
    let mut token = String::new();
    let mut quote: Option<Quote> = None;
    let mut escaped = false;
    let mut started = false;
    let ghost s = input@;
    for character in it: input.chars()
        invariant
            it.seq() == s,
            s == input@,
            ({
                let st = tok_run(s.take(it.index() as int));
                &&& strs_view(tokens@) == st.tokens
                &&& token@ == st.token
                &&& quote == st.quote
                &&& escaped == st.escaped
                &&& started == st.started
            }),
    {
        let ghost i = it.index() as int;
        proof {
            lemma_tok_run_step(s, i);
        }
        if escaped {
            push_char(&mut token, character);
            started = true;
            escaped = false;
        } else if character == '\\' {
            escaped = true;
            started = true;
        } else {
            match quote {
                Some(Quote::Single) => {
                    if character == '\'' {
                        quote = None;
                    } else {
                        push_char(&mut token, character);
                        started = true;
                    }
                },
                Some(Quote::Double) => {
                    if character == '"' {
                        quote = None;
                    } else {
                        push_char(&mut token, character);
                        started = true;
                    }
                },
                None => {
                    if character == '\'' {
                        quote = Some(Quote::Single);
                        started = true;
                    } else if character == '"' {
                        quote = Some(Quote::Double);
                        started = true;
                    } else if is_whitespace(character) {
                        if started {
                            proof {
                                lemma_push_view(tokens@, token);
                            }
                            tokens.push(token);
                            token = String::new();
                            started = false;
                        }
                    } else {
                        push_char(&mut token, character);
                        started = true;
                    }
                },
            }
        }
    }
    assert(s.take(s.len() as int) =~= s);
    if escaped {
        return Err(owned("a trailing backslash must escape another character"));
    }
    if quote.is_some() {
        return Err(owned("quoted command text is not closed"));
    }
    if started {
        proof {
            lemma_push_view(tokens@, token);
        }
        tokens.push(token);
    }
    if tokens.len() == 0 {
        return Err(owned("a command must contain a program"));
    }
    Ok(tokens)
}

} // verus!

verus! {

/// The character views of name and value pairs.
pub open spec fn pairs_view(v: Seq<(String, String)>) -> Seq<(Seq<char>, Seq<char>)> {
    v.map_values(|p: (String, String)| (p.0@, p.1@))
}

/// The value bound to a placeholder name: the first entry with that name.
pub open spec fn lookup(values: Seq<(Seq<char>, Seq<char>)>, name: Seq<char>) -> Option<
    Seq<char>,
>
    decreases values.len(),
{
    if values.len() == 0 {
        None
    } else if values[0].0 == name {
        Some(values[0].1)
    } else {
        lookup(values.drop_first(), name)
    }
}

/// The first index of `c` in `s`.
pub open spec fn find_char(s: Seq<char>, c: char) -> Option<int>
    decreases s.len(),
{
    if s.len() == 0 {
        None
    } else if s[0] == c {
        Some(0)
    } else {
        match find_char(s.drop_first(), c) {
            Some(i) => Some(i + 1),
            None => None,
        }
    }
}

/// Why a template could not be interpolated.
pub enum InterpolationError {
    MissingClose,
    MalformedName,
    Unknown { name: Seq<char> },
    LiteralClose,
}

pub open spec fn interpolation_error_text(e: InterpolationError) -> Seq<char> {
    match e {
        InterpolationError::MissingClose => "a placeholder is missing its closing brace"@,
        InterpolationError::MalformedName => "a placeholder name is malformed"@,
        InterpolationError::Unknown { name } => "unknown placeholder {"@ + name + "}"@,
        InterpolationError::LiteralClose => "a literal closing brace must be written as }}"@,
    }
}

pub open spec fn prefixed(
    p: Seq<char>,
    r: Result<Seq<char>, InterpolationError>,
) -> Result<Seq<char>, InterpolationError> {
    match r {
        Ok(rest) => Ok(p + rest),
        Err(e) => Err(e),
    }
}

/// Placeholder interpolation: `{{` and `}}` are literal braces, `{name}` is
/// replaced by the bound value inside the same token, and every other
/// character is kept.
pub open spec fn interp(cs: Seq<char>, values: Seq<(Seq<char>, Seq<char>)>) -> Result<
    Seq<char>,
    InterpolationError,
>
    decreases cs.len(),
{
    if cs.len() == 0 {
        Ok(seq![])
    } else if cs[0] == '{' && cs.len() > 1 && cs[1] == '{' {
        prefixed(seq!['{'], interp(cs.skip(2), values))
    } else if cs[0] == '}' && cs.len() > 1 && cs[1] == '}' {
        prefixed(seq!['}'], interp(cs.skip(2), values))
    } else if cs[0] == '{' {
        match find_char(cs.skip(1), '}') {
            None => Err(InterpolationError::MissingClose),
            Some(off) => {
                let name = cs.subrange(1, 1 + off);
                if name.contains('{') || name.len() == 0 {
                    Err(InterpolationError::MalformedName)
                } else {
                    match lookup(values, name) {
                        None => Err(InterpolationError::Unknown { name }),
                        Some(v) => if 0 <= off && 1 + off < cs.len() {
                            prefixed(v, interp(cs.skip(2 + off), values))
                        } else {
                            Err(InterpolationError::MissingClose)
                        },
                    }
                }
            },
        }
    } else if cs[0] == '}' {
        Err(InterpolationError::LiteralClose)
    } else {
        prefixed(seq![cs[0]], interp(cs.drop_first(), values))
    }
}

proof fn lemma_find_char_bounds(s: Seq<char>, c: char)
    ensures
        find_char(s, c) matches Some(i) ==> 0 <= i < s.len() && s[i] == c && !s.take(i).contains(c),
        find_char(s, c) is None ==> !s.contains(c),
    decreases s.len(),
{
    if s.len() > 0 && s[0] != c {
        lemma_find_char_bounds(s.drop_first(), c);
        match find_char(s.drop_first(), c) {
            Some(i) => {
                assert(s.take(i + 1) =~= seq![s[0]] + s.drop_first().take(i));
                if s.take(i + 1).contains(c) {
                    let k = choose|k: int| 0 <= k < i + 1 && #[trigger] s.take(i + 1)[k] == c;
                    if k > 0 {
                        assert(s.drop_first().take(i)[k - 1] == c);
                    }
                }
            },
            None => {
                if s.contains(c) {
                    let k = choose|k: int| 0 <= k < s.len() && #[trigger] s[k] == c;
                    assert(s.drop_first()[k - 1] == c);
                }
            },
        }
    } else if s.len() > 0 {
        assert(s.take(0) =~= Seq::<char>::empty());
    }
}

/// The value bound to `name`, searching the entries in order.
pub fn lookup_value<'a>(values: &'a [(String, String)], name: &str) -> (r: Option<&'a String>)
    ensures
        match r {
            Some(v) => lookup(pairs_view(values@), name@) == Some(v@),
            None => lookup(pairs_view(values@), name@) is None,
        },
{
    let n = values.len();
    let ghost pv = pairs_view(values@);
    assert(pv.skip(0) =~= pv);
    for k in 0..n
        invariant
            n == values@.len(),
            pv == pairs_view(values@),
            lookup(pv, name@) == lookup(pv.skip(k as int), name@),
    {
        assert(pv.skip(k as int).drop_first() =~= pv.skip(k + 1));
        assert(pv.skip(k as int)[0] == pv[k as int]);
        if str_eq(values[k].0.as_str(), name) {
            return Some(&values[k].1);
        }
    }
    None
}

/// The first index of `c` in `cs` at or after `from`.
fn find_from(cs: &Vec<char>, from: usize, c: char) -> (r: Option<usize>)
    requires
        from <= cs@.len(),
    ensures
        match r {
            Some(i) => find_char(cs@.skip(from as int), c) == Some((i - from) as int) && from <= i,
            None => find_char(cs@.skip(from as int), c) is None,
        },
{
    let n = cs.len();
    let mut i = from;
    while i < n
        invariant
            from <= i <= n,
            n == cs@.len(),
            find_char(cs@.skip(from as int), c) == (match find_char(cs@.skip(i as int), c) {
                Some(j) => Some(j + (i - from)),
                None => None,
            }),
        decreases n - i,
    {
        assert(cs@.skip(i as int)[0] == cs@[i as int]);
        if cs[i] == c {
            return Some(i);
        }
        assert(cs@.skip(i as int).drop_first() =~= cs@.skip(i + 1));
        i = i + 1;
    }
    None
}

/// Expands `{name}` placeholders in one template; `{{` and `}}` are literal
/// braces.
pub fn interpolate_template(template: &str, values: &[(String, String)]) -> (r: Result<
    String,
    String,
>)
    ensures
        match r {
            Ok(out) => interp(template@, pairs_view(values@)) == Ok::<
                Seq<char>,
                InterpolationError,
            >(out@),
            Err(message) => interp(template@, pairs_view(values@)) is Err && message@
                == interpolation_error_text(interp(template@, pairs_view(values@))->Err_0),
        },
{
    let cs = chars_of(template);
    let n = cs.len();
    let mut output = String::new();
    let mut index: usize = 0;
    assert(cs@.skip(0) =~= cs@);
    while index < n
        invariant
            index <= n,
            n == cs@.len(),
            cs@ == template@,
            interp(cs@, pairs_view(values@)) == prefixed(
                output@,
                interp(cs@.skip(index as int), pairs_view(values@)),
            ),
        decreases n - index,
    {
        let ghost rest = cs@.skip(index as int);
        let ghost before = output@;
        assert(rest[0] == cs@[index as int]);
        if cs[index] == '{' && index + 1 < n && cs[index + 1] == '{' {
            assert(rest[1] == cs@[index + 1]);
            assert(rest.skip(2) =~= cs@.skip(index + 2));
            push_char(&mut output, '{');
            assert(before + (seq!['{'] + seq![]) =~= output@);
            proof {
                assert forall|t: Seq<char>| #[trigger] (before + (seq!['{'] + t)) == output@ + t by {
                    assert(before + (seq!['{'] + t) =~= output@ + t);
                }
            }
            index = index + 2;
        } else if cs[index] == '}' && index + 1 < n && cs[index + 1] == '}' {
            assert(rest[1] == cs@[index + 1]);
            assert(rest.skip(2) =~= cs@.skip(index + 2));
            push_char(&mut output, '}');
            proof {
                assert forall|t: Seq<char>| #[trigger] (before + (seq!['}'] + t)) == output@ + t by {
                    assert(before + (seq!['}'] + t) =~= output@ + t);
                }
            }
            index = index + 2;
        } else if cs[index] == '{' {
            assert(rest.skip(1) =~= cs@.skip(index + 1));
            let end = match find_from(&cs, index + 1, '}') {
                Some(end) => end,
                None => {
                    return Err(owned("a placeholder is missing its closing brace"));
                },
            };
            let ghost off = (end - index - 1) as int;
            proof {
                lemma_find_char_bounds(rest.skip(1), '}');
            }
            let mut name = String::new();
            let mut has_open = false;
            let mut k = index + 1;
            while k < end
                invariant
                    index + 1 <= k <= end < n,
                    n == cs@.len(),
                    name@ == cs@.subrange(index + 1, k as int),
                    has_open == name@.contains('{'),
                decreases end - k,
            {
                let ghost old_name = name@;
                push_char(&mut name, cs[k]);
                assert(cs@.subrange(index + 1, k + 1) =~= old_name.push(cs@[k as int]));
                if cs[k] == '{' {
                    assert(name@[name@.len() - 1] == '{');
                    has_open = true;
                } else {
                    proof {
                        if name@.contains('{') {
                            let j = choose|j: int| 0 <= j < name@.len() && #[trigger] name@[j] == '{';
                            if j < old_name.len() {
                                assert(old_name[j] == '{');
                            }
                        }
                        if old_name.contains('{') {
                            let j = choose|j: int| 0 <= j < old_name.len() && #[trigger] old_name[j] == '{';
                            assert(name@[j] == '{');
                        }
                    }
                }
                k = k + 1;
            }
            assert(rest.subrange(1, 1 + off) =~= name@);
            if has_open || name.as_str().is_empty() {
                return Err(owned("a placeholder name is malformed"));
            }
            match lookup_value(values, name.as_str()) {
                None => {
                    let mut message = owned("unknown placeholder {");
                    push_str(&mut message, name.as_str());
                    push_str(&mut message, "}");
                    return Err(message);
                },
                Some(value) => {
                    assert(rest.skip(2 + off) =~= cs@.skip(end + 1));
                    push_str(&mut output, value.as_str());
                    proof {
                        assert forall|t: Seq<char>| #[trigger] (before + (value@ + t)) == output@
                            + t by {
                            assert(before + (value@ + t) =~= output@ + t);
                        }
                    }
                    index = end + 1;
                },
            }
        } else if cs[index] == '}' {
            return Err(owned("a literal closing brace must be written as }}"));
        } else {
            assert(rest.drop_first() =~= cs@.skip(index + 1));
            let ch = cs[index];
            push_char(&mut output, ch);
            proof {
                assert forall|t: Seq<char>| #[trigger] (before + (seq![ch] + t)) == output@ + t by {
                    assert(before + (seq![ch] + t) =~= output@ + t);
                }
            }
            index = index + 1;
        }
    }
    assert(cs@.skip(n as int) =~= Seq::<char>::empty());
    assert(output@ + seq![] =~= output@);
    Ok(output)
}

} // verus!

verus! {

/// The placeholder values of an invocation context, in name order.
pub open spec fn context_values_spec(c: AntennaControlContext) -> Seq<(Seq<char>, Seq<char>)> {
    seq![
        ("antenna"@, c.antenna@),
        ("band"@, band_name(c.band)),
        ("callsign"@, c.callsign@),
        ("direction"@, direction_name(c.direction)),
        ("frequency_hz"@, match c.frequency_hz {
            Some(f) => dec(f as nat),
            None => seq![],
        }),
        ("intent_id"@, c.intent_id@),
        ("mode"@, mode_name(c.mode)),
        ("sequence"@, dec(c.sequence as nat)),
        ("session_id"@, c.session_id@),
        ("target"@, c.target@),
    ]
}

fn pair(name: &str, value: String) -> (r: (String, String))
    ensures
        r.0@ == name@,
        r.1@ == value@,
{
    (owned(name), value)
}

/// The text of a band, such as `20m`.
pub fn band_text(b: Band) -> (r: String)
    ensures
        r@ == band_name(b),
{
    let mut s = u64_text(b.meters as u64);
    push_char(&mut s, 'm');
    s
}

/// The placeholder values that a command template may reference.
pub fn context_values(context: &AntennaControlContext) -> (r: Vec<(String, String)>)
    ensures
        pairs_view(r@) == context_values_spec(*context),
{
    let mut v: Vec<(String, String)> = Vec::new();
    v.push(pair("antenna", context.antenna.clone()));
    v.push(pair("band", band_text(context.band)));
    v.push(pair("callsign", context.callsign.clone()));
    v.push(pair("direction", owned(context.direction.as_str())));
    let frequency = match context.frequency_hz {
        Some(f) => u64_text(f),
        None => String::new(),
    };
    v.push(pair("frequency_hz", frequency));
    v.push(pair("intent_id", context.intent_id.clone()));
    v.push(pair("mode", owned(context.mode.as_str())));
    v.push(pair("sequence", u64_text(context.sequence)));
    v.push(pair("session_id", context.session_id.clone()));
    v.push(pair("target", context.target.clone()));
    assert(pairs_view(v@) =~= context_values_spec(*context));
    v
}

/// Interpolation of each argument template in order; the first failure wins.
pub open spec fn interp_all(args: Seq<Seq<char>>, values: Seq<(Seq<char>, Seq<char>)>) -> Result<
    Seq<Seq<char>>,
    InterpolationError,
>
    decreases args.len(),
{
    if args.len() == 0 {
        Ok(seq![])
    } else {
        match interp(args[0], values) {
            Err(e) => Err(e),
            Ok(a) => match interp_all(args.drop_first(), values) {
                Err(e) => Err(e),
                Ok(rest) => Ok(seq![a] + rest),
            },
        }
    }
}

/// The sum of the byte lengths of a list of texts.
pub open spec fn total_bytes(v: Seq<Seq<char>>) -> nat
    decreases v.len(),
{
    if v.len() == 0 {
        0
    } else {
        byte_len(v[0]) + total_bytes(v.drop_first())
    }
}

/// The expanded program and arguments of a template for a context, or why
/// expansion failed.
pub open spec fn resolve_spec(
    program: Seq<char>,
    arguments: Seq<Seq<char>>,
    values: Seq<(Seq<char>, Seq<char>)>,
) -> Result<(Seq<char>, Seq<Seq<char>>), Seq<char>> {
    match interp(program, values) {
        Err(e) => Err(interpolation_error_text(e)),
        Ok(p) => match interp_all(arguments, values) {
            Err(e) => Err(interpolation_error_text(e)),
            Ok(a) => if p.len() == 0 || byte_len(p) > COMMAND_PROGRAM_MAX_BYTES {
                Err("the expanded program is empty or exceeds its fixed limit"@)
            } else if exists|i: int|
                0 <= i < a.len() && byte_len(#[trigger] a[i]) > COMMAND_ARGUMENT_MAX_BYTES {
                Err("an expanded argument exceeds its fixed limit"@)
            } else if byte_len(program) + total_bytes(arguments) + byte_len(p) + total_bytes(a)
                > COMMAND_INVOCATION_MAX_BYTES {
                Err("the original and expanded invocation exceed the fixed combined limit"@)
            } else {
                Ok((p, a))
            },
        },
    }
}

/// A command expanded for one intention.
#[derive(Debug, Clone, PartialEq, Eq)]
pub struct ResolvedCommand {
    pub command: AntennaControlCommand,
}

proof fn lemma_total_bytes_skip(v: Seq<Seq<char>>, k: int)
    requires
        0 <= k < v.len(),
    ensures
        total_bytes(v.skip(k)) == byte_len(v[k]) + total_bytes(v.skip(k + 1)),
{
    assert(v.skip(k).drop_first() =~= v.skip(k + 1));
}

/// Bounded sum of byte lengths: the exact sum, or `limit + 1` when it
/// exceeds `limit`.
fn bounded_total(v: &Vec<String>, start: usize, limit: usize) -> (r: usize)
    requires
        start <= limit + 1,
        limit < usize::MAX,
    ensures
        r == if start + total_bytes(strs_view(v@)) > limit {
            (limit + 1) as int
        } else {
            start + total_bytes(strs_view(v@))
        },
{
    let n = v.len();
    let ghost sv = strs_view(v@);
    let mut acc = start;
    let mut k: usize = 0;
    assert(sv.skip(0) =~= sv);
    while k < n
        invariant
            k <= n,
            n == v@.len(),
            sv == strs_view(v@),
            acc <= limit + 1,
            limit < usize::MAX,
            (if start + total_bytes(sv) > limit {
                (limit + 1) as int
            } else {
                start + total_bytes(sv)
            }) == (if acc + total_bytes(sv.skip(k as int)) > limit {
                (limit + 1) as int
            } else {
                acc + total_bytes(sv.skip(k as int))
            }),
        decreases n - k,
    {
        proof {
            lemma_total_bytes_skip(sv, k as int);
        }
        assert(sv[k as int] == v@[k as int]@);
        let w = byte_length(v[k].as_str());
        if w > limit + 1 - acc {
            acc = limit + 1;
        } else {
            acc = acc + w;
            if acc > limit {
                acc = limit + 1;
            }
        }
        k = k + 1;
    }
    assert(sv.skip(n as int) =~= Seq::<Seq<char>>::empty());
    acc
}

/// Expands a command template for a context and checks every fixed limit.
pub fn resolve_command(
    template: &ControllerCommandTemplate,
    context: &AntennaControlContext,
) -> (r: Result<ResolvedCommand, String>)
    ensures
        match resolve_spec(
            template.program_template@,
            strs_view(template.argument_templates@),
            context_values_spec(*context),
        ) {
            Ok((p, a)) => r matches Ok(rc) && rc.command.resolved_program@ == p && strs_view(
                rc.command.resolved_arguments@,
            ) == a && rc.command.program_template@ == template.program_template@ && strs_view(
                rc.command.argument_templates@,
            ) == strs_view(template.argument_templates@),
            Err(m) => r matches Err(e) && e@ == m,
        },
{
    let values_vec = context_values(context);
    let values = values_vec.as_slice();
    let ghost vs = pairs_view(values@);
    let resolved_program = interpolate_template(template.program_template.as_str(), values)?;
    let n = template.argument_templates.len();
    let ghost args = strs_view(template.argument_templates@);
    let mut resolved_arguments: Vec<String> = Vec::new();
    let mut k: usize = 0;
    assert(args.skip(0) =~= args);
    while k < n
        invariant
            k <= n,
            n == template.argument_templates@.len(),
            args == strs_view(template.argument_templates@),
            vs == pairs_view(values@),
            vs == context_values_spec(*context),
            interp(template.program_template@, vs) == Ok::<Seq<char>, InterpolationError>(
                resolved_program@,
            ),
            interp_all(args, vs) == (match interp_all(args.skip(k as int), vs) {
                Ok(rest) => Ok(strs_view(resolved_arguments@) + rest),
                Err(e) => Err::<Seq<Seq<char>>, InterpolationError>(e),
            }),
        decreases n - k,
    {
        assert(args.skip(k as int).drop_first() =~= args.skip(k + 1));
        assert(args.skip(k as int)[0] == template.argument_templates@[k as int]@);
        let a = match interpolate_template(template.argument_templates[k].as_str(), values) {
            Ok(a) => a,
            Err(message) => {
                assert(interp(args.skip(k as int)[0], vs) is Err);
                assert(interp_all(args.skip(k as int), vs) == Err::<
                    Seq<Seq<char>>,
                    InterpolationError,
                >(interp(args.skip(k as int)[0], vs)->Err_0));
                return Err(message);
            },
        };
        proof {
            lemma_push_view(resolved_arguments@, a);
            assert forall|rest: Seq<Seq<char>>| #[trigger] (strs_view(resolved_arguments@) + (seq![
                a@] + rest)) == strs_view(resolved_arguments@).push(a@) + rest by {
                assert(strs_view(resolved_arguments@) + (seq![a@] + rest) =~= strs_view(
                    resolved_arguments@,
                ).push(a@) + rest);
            }
        }
        resolved_arguments.push(a);
        k = k + 1;
    }
    assert(args.skip(n as int) =~= Seq::<Seq<char>>::empty());
    assert(strs_view(resolved_arguments@) + Seq::<Seq<char>>::empty() =~= strs_view(
        resolved_arguments@,
    ));
    if resolved_program.as_str().is_empty() || byte_length(resolved_program.as_str())
        > COMMAND_PROGRAM_MAX_BYTES {
        return Err(owned("the expanded program is empty or exceeds its fixed limit"));
    }
    if crate::profiles::any_longer_than(&resolved_arguments, COMMAND_ARGUMENT_MAX_BYTES) {
        return Err(owned("an expanded argument exceeds its fixed limit"));
    }
    let limit = COMMAND_INVOCATION_MAX_BYTES;
    let mut total = byte_length(template.program_template.as_str());
    if total > limit {
        total = limit + 1;
    }
    total = bounded_total(&template.argument_templates, total, limit);
    let program_bytes = byte_length(resolved_program.as_str());
    if program_bytes > limit + 1 - total {
        total = limit + 1;
    } else {
        total = total + program_bytes;
        if total > limit {
            total = limit + 1;
        }
    }
    total = bounded_total(&resolved_arguments, total, limit);
    if total > limit {
        return Err(owned("the original and expanded invocation exceed the fixed combined limit"));
    }
    let argument_templates = crate::profiles::clone_strings(&template.argument_templates);
    Ok(
        ResolvedCommand {
            command: AntennaControlCommand {
                program_template: template.program_template.clone(),
                argument_templates,
                resolved_program,
                resolved_arguments,
            },
        },
    )
}

/// The invocation context of one intention, or why it has none.
pub fn invocation_context(
    session: &ControlSession,
    intent: &WsprCycleIntent,
    target: String,
) -> (r: Result<AntennaControlContext, String>)
    ensures
        match intent.direction {
            None => r matches Err(e) && e@ == "antenna control requires an intention direction"@,
            Some(d) => r matches Ok(c) && c.antenna@ == intent.antenna_label@ && c.target@
                == target@ && c.mode == session.mode && c.direction == d && c.band == intent.band
                && c.frequency_hz == (match intent.signal {
                Some(s) => Some(s.frequency_hz),
                None => None,
            }) && c.sequence == intent.sequence_number && c.intent_id@ == intent.intent_id@
                && c.session_id@ == session.session_id@ && c.callsign@ == session.callsign@,
        },
{
    let direction = match intent.direction {
        Some(d) => d,
        None => {
            return Err(owned("antenna control requires an intention direction"));
        },
    };
    Ok(
        AntennaControlContext {
            antenna: intent.antenna_label.clone(),
            target,
            mode: session.mode,
            direction,
            band: intent.band,
            frequency_hz: match &intent.signal {
                Some(s) => Some(s.frequency_hz),
                None => None,
            },
            sequence: intent.sequence_number,
            intent_id: intent.intent_id.clone(),
            session_id: session.session_id.clone(),
            callsign: session.callsign.clone(),
        },
    )
}

} // verus!
