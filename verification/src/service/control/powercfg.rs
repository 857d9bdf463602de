//! Reading the processor-state policy back from `powercfg /q` output, and
//! the messages of failed `powercfg` and helper-program runs.
use vstd::prelude::*;

use crate::text::{
    chars_contain, chars_of, digit_value, is_white_space, law_hex_padded_parses_back,
    lemma_hex_padded_digits, occurs_at, parse_unsigned_chars, push_chars, push_decimal,
    seq_contains, spec_decimal, spec_hex_padded, spec_parse_unsigned, spec_trim, string_from,
    trim, trim_chars, trim_end, trim_start,
};

use super::models::ProcessorStateSettings;

verus! {

/// `c` is a hexadecimal digit (`[0-9A-Fa-f]`).
pub open spec fn is_hex_digit(c: char) -> bool {
    digit_value(c, 16) is Some
}

/// The end of the run of hexadecimal digits of `s` that starts at `j`.
pub open spec fn hex_run_end(s: Seq<char>, j: int) -> int
    decreases s.len() - j,
{
    if 0 <= j < s.len() && is_hex_digit(s[j]) {
        hex_run_end(s, j + 1)
    } else {
        j
    }
}

/// The digits of the leftmost `0x<hex digits>` literal of `s` at or after
/// position `i`, taking the longest run of digits.
pub open spec fn first_hex_literal_from(s: Seq<char>, i: int) -> Option<Seq<char>>
    decreases s.len() - i,
{
    if i < 0 || i + 2 >= s.len() {
        None
    } else if s[i] == '0' && s[i + 1] == 'x' && is_hex_digit(s[i + 2]) {
        Some(s.subrange(i + 2, hex_run_end(s, i + 2)))
    } else {
        first_hex_literal_from(s, i + 1)
    }
}

/// What the pattern `0x([0-9A-Fa-f]+)` captures in `s` with leftmost-first,
/// greedy matching: the digits of the first `0x` literal.
pub open spec fn spec_first_hex_literal(s: Seq<char>) -> Option<Seq<char>> {
    first_hex_literal_from(s, 0)
}

/// The first capture group of the regular expression `0x([0-9A-Fa-f]+)`
/// (crate `regex`: `Regex::new` then `Regex::captures`) in `line`. The
/// contract states the regex crate's documented leftmost-first, greedy
/// semantics for this fixed pattern; the pattern always compiles.
#[verifier::external_body]
fn first_hex_literal(line: &str) -> (r: Option<String>)
    ensures
        r matches Some(d) ==> spec_first_hex_literal(line@) == Some(d@),
        r is None ==> spec_first_hex_literal(line@) is None,
{
    let pattern = regex::Regex::new(r"0x([0-9A-Fa-f]+)").ok()?;
    let captures = pattern.captures(line)?;
    captures.get(1).map(|m| m.as_str().to_string())
}

/// `s` split at each `\n` (a text without newlines is one line).
pub open spec fn split_lines(s: Seq<char>) -> Seq<Seq<char>>
    decreases s.len(),
{
    if s.len() == 0 {
        seq![Seq::empty()]
    } else {
        let prev = split_lines(s.drop_last());
        if s.last() == '\n' {
            prev.push(Seq::empty())
        } else {
            prev.update(prev.len() - 1, prev.last().push(s.last()))
        }
    }
}

proof fn lemma_split_lines_nonempty(s: Seq<char>)
    ensures
        split_lines(s).len() >= 1,
    decreases s.len(),
{
    if s.len() > 0 {
        lemma_split_lines_nonempty(s.drop_last());
    }
}

/// The hexadecimal literal of a line whose trimmed text mentions `label`.
pub open spec fn line_literal(line: Seq<char>, label: Seq<char>) -> Option<Seq<char>> {
    let t = spec_trim(line);
    if seq_contains(t, label) {
        spec_first_hex_literal(t)
    } else {
        None
    }
}

/// The literal of the first line that mentions `label` and carries one.
pub open spec fn first_line_literal(lines: Seq<Seq<char>>, label: Seq<char>) -> Option<Seq<char>>
    decreases lines.len(),
{
    if lines.len() == 0 {
        None
    } else {
        match first_line_literal(lines.drop_last(), label) {
            Some(r) => Some(r),
            None => line_literal(lines.last(), label),
        }
    }
}

/// The value of a readback literal: the hexadecimal number when it fits in
/// `u32` and then in `u8`, with the errors `u32::from_str_radix` and the
/// `u8` conversion give otherwise.
pub open spec fn literal_value(digits: Seq<char>, setting: Seq<char>) -> Result<u8, Seq<char>> {
    match spec_parse_unsigned(digits, 16, 0xFFFF_FFFF) {
        Some(v) => if v <= 255 {
            Ok(v as u8)
        } else {
            Err("Readback value "@ + spec_decimal(v) + " for "@ + setting + " exceeds u8 range"@)
        },
        None => Err("number too large to fit in target type"@),
    }
}

/// The processor-state value that `powercfg /q` output reports on the first
/// line mentioning `label` that carries a `0x` literal.
pub open spec fn scheme_value(output: Seq<char>, setting: Seq<char>, label: Seq<char>) -> Result<
    u8,
    Seq<char>,
> {
    match first_line_literal(split_lines(output), label) {
        Some(d) => literal_value(d, setting),
        None => Err("Could not find "@ + label + " in powercfg readback for "@ + setting),
    }
}

fn line_literal_exec(line: &Vec<char>, label: &Vec<char>) -> (r: Option<Vec<char>>)
    ensures
        r matches Some(d) ==> line_literal(line@, label@) == Some(d@),
        r is None ==> line_literal(line@, label@) is None,
{
    let trimmed = trim_chars(line.as_slice());
    if !chars_contain(trimmed.as_slice(), label.as_slice()) {
        return None;
    }
    let text = string_from_vec(&trimmed);
    match first_hex_literal(text.as_str()) {
        Some(d) => Some(chars_of(d.as_str())),
        None => None,
    }
}

fn string_from_vec(v: &Vec<char>) -> (s: String)
    ensures
        s@ == v@,
{
    let mut s = String::new();
    push_chars(&mut s, v.as_slice());
    s
}

/// Reads the processor-state value of `setting` from `powercfg /q` output
/// (see [`scheme_value`]); errors are returned as their messages.
pub fn query_scheme_value(output: &str, setting: &str, label: &str) -> (r: Result<u8, String>)
    ensures
        r matches Ok(v) ==> scheme_value(output@, setting@, label@) == Ok::<u8, Seq<char>>(v),
        r matches Err(e) ==> scheme_value(output@, setting@, label@) == Err::<u8, Seq<char>>(e@),
{
    let text = chars_of(output);
    let label_chars = chars_of(label);
    let n = text.len();
    let mut found: Option<Vec<char>> = None;
    let mut current: Vec<char> = Vec::new();
    proof {
        assert(text@.take(0) =~= Seq::<char>::empty());
        assert(split_lines(Seq::<char>::empty()).drop_last() =~= Seq::<Seq<char>>::empty());
    }
    for i in 0..n
        invariant
            n == text@.len(),
            text@ == output@,
            label_chars@ == label@,
            split_lines(text@.take(i as int)).len() >= 1,
            current@ == split_lines(text@.take(i as int)).last(),
            match found {
                Some(d) => first_line_literal(split_lines(text@.take(i as int)).drop_last(), label@)
                    == Some(d@),
                None => first_line_literal(split_lines(text@.take(i as int)).drop_last(), label@)
                    is None,
            },
    {
        let c = text[i];
        let ghost before = split_lines(text@.take(i as int));
        proof {
            assert(text@.take(i + 1).drop_last() =~= text@.take(i as int));
            assert(text@.take(i + 1).last() == c);
            lemma_split_lines_nonempty(text@.take(i + 1));
        }
        if c == '\n' {
            assert(split_lines(text@.take(i + 1)).drop_last() =~= before);
            if found.is_none() {
                found = line_literal_exec(&current, &label_chars);
            }
            current = Vec::new();
            assert(before.drop_last().push(before.last()) =~= before);
        } else {
            current.push(c);
            assert(split_lines(text@.take(i + 1)).drop_last() =~= before.drop_last());
        }
    }
    proof {
        assert(text@.take(n as int) =~= text@);
        let all = split_lines(text@);
        assert(all.drop_last().push(all.last()) =~= all);
    }
    let digits = match found {
        Some(d) => d,
        None => match line_literal_exec(&current, &label_chars) {
            Some(d) => d,
            None => {
                let mut e = String::new();
                e.append("Could not find ");
                e.append(label);
                e.append(" in powercfg readback for ");
                e.append(setting);
                assert(e@ =~= "Could not find "@ + label@ + " in powercfg readback for "@ + setting@);
                return Err(e);
            },
        },
    };
    match parse_unsigned_chars(digits.as_slice(), 16, 0xFFFF_FFFF) {
        Some(v) => {
            if v <= 255 {
                Ok(v as u8)
            } else {
                let mut e = String::new();
                e.append("Readback value ");
                push_decimal(&mut e, v);
                e.append(" for ");
                e.append(setting);
                e.append(" exceeds u8 range");
                assert(e@ =~= "Readback value "@ + spec_decimal(v as nat) + " for "@ + setting@
                    + " exceeds u8 range"@);
                Err(e)
            }
        },
        None => Err(string_from("number too large to fit in target type")),
    }
}

/// The detail of a failed program run: its trimmed standard error, else its
/// trimmed standard output, else `<program> exited with status <status>`.
pub open spec fn failure_detail(
    program: Seq<char>,
    stderr: Seq<char>,
    stdout: Seq<char>,
    status: Seq<char>,
) -> Seq<char> {
    if spec_trim(stderr).len() > 0 {
        spec_trim(stderr)
    } else if spec_trim(stdout).len() > 0 {
        spec_trim(stdout)
    } else {
        program + " exited with status "@ + status
    }
}

/// The detail of a failed program run (see [`failure_detail`]).
pub fn command_failure_detail(program: &str, stderr: &str, stdout: &str, status: &str) -> (r:
    String)
    ensures
        r@ == failure_detail(program@, stderr@, stdout@, status@),
{
    let err = trim(stderr);
    if err.len() > 0 {
        return string_from_vec(&err);
    }
    let out = trim(stdout);
    if out.len() > 0 {
        return string_from_vec(&out);
    }
    let mut s = String::new();
    s.append(program);
    s.append(" exited with status ");
    s.append(status);
    s
}

/// The error of a failed `powercfg` run: `powercfg <arguments> failed:
/// <detail>`.
pub fn powercfg_failure(arguments: &str, detail: &str) -> (r: String)
    ensures
        r@ == "powercfg "@ + arguments@ + " failed: "@ + detail@,
{
    let mut s = String::new();
    s.append("powercfg ");
    s.append(arguments);
    s.append(" failed: ");
    s.append(detail);
    s
}

// ----------------------------------------------------------------------------
// Reading back what powercfg prints
// ----------------------------------------------------------------------------

proof fn lemma_single_line(s: Seq<char>)
    requires
        forall|i: int| 0 <= i < s.len() ==> s[i] != '\n',
    ensures
        split_lines(s) == seq![s],
    decreases s.len(),
{
    if s.len() > 0 {
        lemma_single_line(s.drop_last());
        assert(s.drop_last().push(s.last()) =~= s);
    } else {
        assert(s =~= Seq::<char>::empty());
    }
}

proof fn lemma_trim_leading_spaces(pre: Seq<char>, rest: Seq<char>)
    requires
        forall|i: int| 0 <= i < pre.len() ==> pre[i] == ' ',
    ensures
        trim_start(pre + rest) == trim_start(rest),
    decreases pre.len(),
{
    if pre.len() > 0 {
        assert((pre + rest)[0] == ' ');
        assert((pre + rest).drop_first() =~= pre.drop_first() + rest);
        lemma_trim_leading_spaces(pre.drop_first(), rest);
    } else {
        assert(pre + rest =~= rest);
    }
}

proof fn lemma_hex_run_to_end(t: Seq<char>, j: int)
    requires
        0 <= j <= t.len(),
        forall|i: int| j <= i < t.len() ==> is_hex_digit(#[trigger] t[i]),
    ensures
        hex_run_end(t, j) == t.len(),
    decreases t.len() - j,
{
    if j < t.len() {
        lemma_hex_run_to_end(t, j + 1);
    }
}

proof fn lemma_skip_to_literal(t: Seq<char>, j: int, k: int)
    requires
        0 <= j <= k,
        k + 2 < t.len(),
        forall|i: int| j <= i < k ==> t[i] != '0',
    ensures
        first_hex_literal_from(t, j) == first_hex_literal_from(t, k),
    decreases k - j,
{
    if j < k {
        lemma_skip_to_literal(t, j + 1, k);
    }
}

/// The readback finds the index that `powercfg /q` prints: on a line made
/// of indentation, the setting label (no `0` digit, no line break, not
/// starting with white space), `: 0x` and the zero-padded hexadecimal
/// index, the index comes back as it was written.
pub proof fn law_readback_line_gives_index(label: Seq<char>, n: u8, setting: Seq<char>)
    requires
        label.len() > 0,
        !is_white_space(label[0]),
        forall|i: int| 0 <= i < label.len() ==> label[i] != '0' && label[i] != '\n',
    ensures
        scheme_value(
            seq![' ', ' ', ' ', ' '] + label + seq![':', ' ', '0', 'x'] + spec_hex_padded(n as nat, 8),
            setting,
            label,
        ) == Ok::<u8, Seq<char>>(n),
{
    let pre = seq![' ', ' ', ' ', ' '];
    let mid = seq![':', ' ', '0', 'x'];
    let h = spec_hex_padded(n as nat, 8);
    let t = label + mid + h;
    let line = pre + label + mid + h;
    lemma_hex_padded_digits(n as nat, 8);
    law_hex_padded_parses_back(n as nat, 8, 0xFFFF_FFFF);
    assert(line =~= pre + t);
    let l: int = label.len() as int;
    assert forall|i: int| 0 <= i < t.len() implies t[i] != '\n' by {
        if i < l {
        } else if i < l + 4 {
            assert(t[i] == mid[i - l]);
        } else {
            assert(t[i] == h[i - l - 4]);
            assert(digit_value(h[i - l - 4], 16) is Some);
        }
    }
    assert forall|i: int| 0 <= i < line.len() implies line[i] != '\n' by {
        if i >= 4 {
            assert(line[i] == t[i - 4]);
        }
    }
    lemma_single_line(line);
    assert(seq![line].drop_last() =~= Seq::<Seq<char>>::empty());
    assert(first_line_literal(Seq::<Seq<char>>::empty(), label) is None);
    assert(seq![line].last() == line);
    assert(first_line_literal(seq![line], label) == line_literal(line, label));
    lemma_trim_leading_spaces(pre, t);
    assert(t[0] == label[0]);
    assert(trim_start(t) == t);
    assert(t.last() == h.last());
    assert(digit_value(h[h.len() - 1], 16) is Some);
    assert(!is_white_space(t.last()));
    assert(trim_end(t) == t);
    assert(spec_trim(line) == t);
    assert(t.subrange(0, l) =~= label);
    assert(occurs_at(t, label, 0));
    assert(seq_contains(t, label));
    assert forall|i: int| 0 <= i < l + 2 implies t[i] != '0' by {
        if i >= l {
            assert(t[i] == mid[i - l]);
        }
    }
    lemma_skip_to_literal(t, 0, l + 2);
    assert(t[l + 2] == '0' && t[l + 3] == 'x');
    assert(t[l + 4] == h[0]);
    assert forall|i: int| l + 4 <= i < t.len() implies is_hex_digit(#[trigger] t[i]) by {
        assert(t[i] == h[i - l - 4]);
    }
    lemma_hex_run_to_end(t, l + 4);
    assert(t.subrange(l + 4, t.len() as int) =~= h);
    assert(spec_first_hex_literal(t) == Some(h));
}

// ----------------------------------------------------------------------------
// Writing the processor state
// ----------------------------------------------------------------------------

/// Which power source a scheme value is written for.
#[derive(Clone, Copy, Debug, PartialEq, Eq, Structural)]
pub enum PowerSource {
    Ac,
    Dc,
}

/// Which processor-state setting is written.
#[derive(Clone, Copy, Debug, PartialEq, Eq, Structural)]
pub enum ProcessorSetting {
    Minimum,
    Maximum,
}

/// One `powercfg` call of a processor-state apply.
#[derive(Clone, Copy, Debug, PartialEq, Eq, Structural)]
pub enum PowercfgCall {
    /// Writes `value` for a setting of the current scheme's processor
    /// subgroup on a power source.
    SetValue { source: PowerSource, setting: ProcessorSetting, value: u8 },
    /// Activates the current scheme.
    SetActive,
}

/// The calls that write `state`, in order: the minimum and maximum on AC,
/// then on DC, then the activation of the scheme. They run until the first
/// one fails.
pub open spec fn spec_processor_state_calls(state: ProcessorStateSettings) -> Seq<PowercfgCall> {
    seq![
        PowercfgCall::SetValue { source: PowerSource::Ac, setting: ProcessorSetting::Minimum, value: state.min_percent },
        PowercfgCall::SetValue { source: PowerSource::Ac, setting: ProcessorSetting::Maximum, value: state.max_percent },
        PowercfgCall::SetValue { source: PowerSource::Dc, setting: ProcessorSetting::Minimum, value: state.min_percent },
        PowercfgCall::SetValue { source: PowerSource::Dc, setting: ProcessorSetting::Maximum, value: state.max_percent },
        PowercfgCall::SetActive,
    ]
}

/// The calls that write `state` (see [`spec_processor_state_calls`]).
pub fn processor_state_calls(state: ProcessorStateSettings) -> (r: Vec<PowercfgCall>)
    ensures
        r@ == spec_processor_state_calls(state),
{
    let r = vec![
        PowercfgCall::SetValue { source: PowerSource::Ac, setting: ProcessorSetting::Minimum, value: state.min_percent },
        PowercfgCall::SetValue { source: PowerSource::Ac, setting: ProcessorSetting::Maximum, value: state.max_percent },
        PowercfgCall::SetValue { source: PowerSource::Dc, setting: ProcessorSetting::Minimum, value: state.min_percent },
        PowercfgCall::SetValue { source: PowerSource::Dc, setting: ProcessorSetting::Maximum, value: state.max_percent },
        PowercfgCall::SetActive,
    ];
    assert(r@ =~= spec_processor_state_calls(state));
    r
}

/// The command-line arguments of a `powercfg` call.
pub open spec fn spec_powercfg_arguments(call: PowercfgCall) -> Seq<Seq<char>> {
    match call {
        PowercfgCall::SetValue { source, setting, value } => seq![
            match source {
                PowerSource::Ac => "/setacvalueindex"@,
                PowerSource::Dc => "/setdcvalueindex"@,
            },
            "SCHEME_CURRENT"@,
            "SUB_PROCESSOR"@,
            match setting {
                ProcessorSetting::Minimum => "PROCTHROTTLEMIN"@,
                ProcessorSetting::Maximum => "PROCTHROTTLEMAX"@,
            },
            spec_decimal(value as nat),
        ],
        PowercfgCall::SetActive => seq!["/setactive"@, "SCHEME_CURRENT"@],
    }
}

/// The views of a list of strings.
pub open spec fn strings_view(v: Seq<String>) -> Seq<Seq<char>> {
    v.map_values(|s: String| s@)
}

/// The command-line arguments of a `powercfg` call (see
/// [`spec_powercfg_arguments`]).
pub fn powercfg_arguments(call: PowercfgCall) -> (r: Vec<String>)
    ensures
        strings_view(r@) == spec_powercfg_arguments(call),
{
    match call {
        PowercfgCall::SetValue { source, setting, value } => {
            let verb = match source {
                PowerSource::Ac => string_from("/setacvalueindex"),
                PowerSource::Dc => string_from("/setdcvalueindex"),
            };
            let name = match setting {
                ProcessorSetting::Minimum => string_from("PROCTHROTTLEMIN"),
                ProcessorSetting::Maximum => string_from("PROCTHROTTLEMAX"),
            };
            let mut number = String::new();
            push_decimal(&mut number, value as u64);
            assert(number@ =~= spec_decimal(value as nat));
            let r = vec![verb, string_from("SCHEME_CURRENT"), string_from("SUB_PROCESSOR"), name, number];
            assert(strings_view(r@) =~= spec_powercfg_arguments(call));
            r
        },
        PowercfgCall::SetActive => {
            let r = vec![string_from("/setactive"), string_from("SCHEME_CURRENT")];
            assert(strings_view(r@) =~= spec_powercfg_arguments(call));
            r
        },
    }
}

} // verus!
