//! The outputs that `kscreen-doctor -o` lists, and the choices made from
//! them: the output that the tablet's input is bound to, an output's UUID,
//! and the portal's leftover virtual outputs to switch off.
use vstd::prelude::*;

use crate::capabilities::opt_string;
use crate::config::opt_str_view;
use crate::kwin::VIRTUAL_OUTPUT_CONNECTOR;
use crate::text::{
    chars_eq, chars_eq_str, chars_of, chars_starts_with_str, contains_char, lemma_scan, lines,
    lines_of, scan, scan_exec, starts_with, string_from, string_of, sub_chars, trim, trim_chars,
    words, words_of, CharClass,
};

verus! {

broadcast use vstd::string::group_string_axioms;

/// The escape character that starts an ANSI control sequence.
pub open spec fn esc() -> char {
    '\u{1b}'
}

/// `s` from `i` on without ANSI control sequences: an escape followed by
/// `[` is dropped together with everything up to and including the next
/// ASCII letter (or to the end).
pub open spec fn strip_ansi_from(s: Seq<char>, i: int) -> Seq<char>
    decreases s.len() - i,
{
    if i < 0 || i >= s.len() {
        seq![]
    } else if s[i] == esc() && i + 1 < s.len() && s[i + 1] == '[' {
        let j = scan(s, i + 2, CharClass::AsciiAlpha);
        proof {
            lemma_scan(s, i + 2, CharClass::AsciiAlpha);
        }
        if j >= s.len() {
            seq![]
        } else {
            strip_ansi_from(s, j + 1)
        }
    } else {
        seq![s[i]] + strip_ansi_from(s, i + 1)
    }
}

pub open spec fn spec_strip_ansi(s: Seq<char>) -> Seq<char> {
    strip_ansi_from(s, 0)
}

pub fn strip_ansi(text: &str) -> (r: String)
    ensures
        r@ == spec_strip_ansi(text@),
{
    let s = chars_of(text);
    let n = s.len();
    let mut out: Vec<char> = Vec::new();
    let mut i: usize = 0;
    while i < n
        invariant
            n == s@.len(),
            i <= n,
            out@ + strip_ansi_from(s@, i as int) == strip_ansi_from(s@, 0),
        decreases n - i,
    {
        if s[i] == '\u{1b}' && i + 1 < n && s[i + 1] == '[' {
            let j = scan_exec(s.as_slice(), i + 2, &CharClass::AsciiAlpha);
            proof {
                lemma_scan(s@, i + 2, CharClass::AsciiAlpha);
            }
            if j >= n {
                assert(strip_ansi_from(s@, n as int) =~= seq![]);
                i = n;
            } else {
                i = j + 1;
            }
        } else {
            let ghost before = out@;
            out.push(s[i]);
            assert(out@ + strip_ansi_from(s@, i + 1) =~= before + strip_ansi_from(s@, i as int));
            i += 1;
        }
    }
    assert(out@ + strip_ansi_from(s@, n as int) =~= out@);
    string_of(out.as_slice())
}

#[derive(Debug, Clone, PartialEq, Eq)]
pub struct KscreenOutput {
    pub name: String,
    pub uuid: Option<String>,
    pub enabled: bool,
}

/// An output as plain values: its name, its UUID if listed, and whether it
/// is enabled.
pub type OutputView = (Seq<char>, Option<Seq<char>>, bool);

pub open spec fn output_view(o: KscreenOutput) -> OutputView {
    (o.name@, opt_string(o.uuid), o.enabled)
}

pub open spec fn outputs_view(v: Seq<KscreenOutput>) -> Seq<OutputView> {
    v.map_values(|o: KscreenOutput| output_view(o))
}

/// What an `Output: <index> <name> [<uuid>]` line starts: `None` for any
/// other line, else the new output (none when the line has no name). The
/// third word is its UUID when it holds a `-`.
pub open spec fn output_header(line: Seq<char>) -> Option<Option<OutputView>> {
    if starts_with(line, "Output: "@) {
        let ws = words(line.skip(8));
        if ws.len() >= 2 {
            let uuid = if ws.len() >= 3 && ws[2].contains('-') {
                Some(ws[2])
            } else {
                None
            };
            Some(Some((ws[1], uuid, false)))
        } else {
            Some(None)
        }
    } else {
        None
    }
}

pub open spec fn set_enabled(cur: Option<OutputView>, on: bool) -> Option<OutputView> {
    match cur {
        Some(c) => Some((c.0, c.1, on)),
        None => None,
    }
}

pub open spec fn flushed(cur: Option<OutputView>, done: Seq<OutputView>) -> Seq<OutputView> {
    match cur {
        Some(c) => done.push(c),
        None => done,
    }
}

/// One line of the listing: a header closes the output before it and opens
/// a new one; an `enabled` or `disabled` line sets the open output's state.
pub open spec fn kscreen_step(st: (Option<OutputView>, Seq<OutputView>), line: Seq<char>) -> (
    Option<OutputView>,
    Seq<OutputView>,
) {
    match output_header(line) {
        Some(next) => (next, flushed(st.0, st.1)),
        None => if trim(line) == "enabled"@ {
            (set_enabled(st.0, true), st.1)
        } else if trim(line) == "disabled"@ {
            (set_enabled(st.0, false), st.1)
        } else {
            st
        },
    }
}

pub open spec fn kscreen_fold(ls: Seq<Seq<char>>, n: int) -> (Option<OutputView>, Seq<OutputView>)
    decreases n,
{
    if n <= 0 {
        (None, seq![])
    } else {
        kscreen_step(kscreen_fold(ls, n - 1), ls[n - 1])
    }
}

/// The outputs in a `kscreen-doctor -o` listing, colour codes removed.
pub open spec fn spec_parse_kscreen(text: Seq<char>) -> Seq<OutputView> {
    let ls = lines(spec_strip_ansi(text));
    let st = kscreen_fold(ls, ls.len() as int);
    flushed(st.0, st.1)
}

pub open spec fn opt_output_view(o: Option<KscreenOutput>) -> Option<OutputView> {
    match o {
        Some(c) => Some(output_view(c)),
        None => None,
    }
}

fn header_of(line: &Vec<char>) -> (r: Option<Option<KscreenOutput>>)
    ensures
        match r {
            Some(next) => output_header(line@) == Some(opt_output_view(next)),
            None => output_header(line@) is None,
        },
{
    if !chars_starts_with_str(line.as_slice(), "Output: ") {
        return None;
    }
    proof {
        reveal_strlit("Output: ");
    }
    let rest = sub_chars(line.as_slice(), 8, line.len());
    assert(rest@ =~= line@.skip(8));
    let ws = words_of(rest.as_slice());
    let ghost wv = ws@.map_values(|v: Vec<char>| v@);
    if ws.len() < 2 {
        return Some(None);
    }
    assert(ws@[1]@ == wv[1]);
    let name = string_of(ws[1].as_slice());
    let uuid = if ws.len() >= 3 && contains_char(ws[2].as_slice(), '-') {
        assert(ws@[2]@ == wv[2]);
        Some(string_of(ws[2].as_slice()))
    } else {
        proof {
            if ws.len() >= 3 {
                assert(ws@[2]@ == wv[2]);
            }
        }
        None
    };
    Some(Some(KscreenOutput { name, uuid, enabled: false }))
}

pub fn parse_kscreen_outputs(text: &str) -> (r: Vec<KscreenOutput>)
    ensures
        outputs_view(r@) == spec_parse_kscreen(text@),
{
    let stripped = strip_ansi(text);
    let sc = chars_of(stripped.as_str());
    let ls = lines_of(sc.as_slice());
    let ghost lv = ls@.map_values(|v: Vec<char>| v@);
    let mut current: Option<KscreenOutput> = None;
    let mut out: Vec<KscreenOutput> = Vec::new();
    let mut i: usize = 0;
    while i < ls.len()
        invariant
            i <= ls@.len(),
            lv == ls@.map_values(|v: Vec<char>| v@),
            (opt_output_view(current), outputs_view(out@)) == kscreen_fold(lv, i as int),
        decreases ls@.len() - i,
    {
        let line = &ls[i];
        assert(line@ == lv[i as int]);
        let ghost st = kscreen_fold(lv, i as int);
        match header_of(line) {
            Some(next) => {
                if let Some(done) = current {
                    out.push(done);
                }
                assert(outputs_view(out@) =~= flushed(st.0, st.1));
                current = next;
            },
            None => {
                let t = trim_chars(line.as_slice());
                if chars_eq_str(t.as_slice(), "enabled") {
                    if let Some(c) = current {
                        current = Some(KscreenOutput { name: c.name, uuid: c.uuid, enabled: true });
                    }
                } else if chars_eq_str(t.as_slice(), "disabled") {
                    if let Some(c) = current {
                        current = Some(
                            KscreenOutput { name: c.name, uuid: c.uuid, enabled: false },
                        );
                    }
                }
            },
        }
        i += 1;
    }
    let ghost st = kscreen_fold(lv, ls@.len() as int);
    if let Some(done) = current {
        out.push(done);
    }
    assert(outputs_view(out@) =~= flushed(st.0, st.1));
    out
}

/// Virtual outputs that the screencast portal left behind.
pub open spec fn spec_is_portal_virtual_output(name: Seq<char>) -> bool {
    starts_with(name, "Virtual-virtual-xdp-kde"@)
}

pub fn is_portal_virtual_output(name: &str) -> (r: bool)
    ensures
        r == spec_is_portal_virtual_output(name@),
{
    let c = chars_of(name);
    chars_starts_with_str(c.as_slice(), "Virtual-virtual-xdp-kde")
}

/// The names of the enabled outputs among the first `n`, in order.
pub open spec fn enabled_names(outs: Seq<OutputView>, n: int) -> Seq<Seq<char>>
    decreases n,
{
    if n <= 0 {
        seq![]
    } else if outs[n - 1].2 {
        enabled_names(outs, n - 1).push(outs[n - 1].0)
    } else {
        enabled_names(outs, n - 1)
    }
}

/// The first name from `i` on that starts with `p`, if any.
pub open spec fn first_with_prefix(names: Seq<Seq<char>>, p: Seq<char>, i: int) -> Option<
    Seq<char>,
>
    decreases names.len() - i,
{
    if i < 0 || i >= names.len() {
        None
    } else if starts_with(names[i], p) {
        Some(names[i])
    } else {
        first_with_prefix(names, p, i + 1)
    }
}

/// The output to bind the tablet's input to, among the enabled ones: the
/// preferred output, else the first `Virtual-ORBISCREEN-…` output, else
/// `Virtual-ORBISCREEN` itself.
pub open spec fn spec_select_tablet_output(outs: Seq<OutputView>, preferred: Option<Seq<char>>) -> Option<
    Seq<char>,
> {
    let en = enabled_names(outs, outs.len() as int);
    if preferred is Some && en.contains(preferred->0) {
        preferred
    } else if first_with_prefix(en, "Virtual-ORBISCREEN-"@, 0) is Some {
        first_with_prefix(en, "Virtual-ORBISCREEN-"@, 0)
    } else if en.contains(VIRTUAL_OUTPUT_CONNECTOR@) {
        Some(VIRTUAL_OUTPUT_CONNECTOR@)
    } else {
        None
    }
}

fn enabled_names_of(outputs: &[KscreenOutput]) -> (r: Vec<Vec<char>>)
    ensures
        r@.map_values(|v: Vec<char>| v@) == enabled_names(
            outputs_view(outputs@),
            outputs@.len() as int,
        ),
{
    let ghost ov = outputs_view(outputs@);
    let mut en: Vec<Vec<char>> = Vec::new();
    let mut i: usize = 0;
    while i < outputs.len()
        invariant
            i <= outputs@.len(),
            ov == outputs_view(outputs@),
            en@.map_values(|v: Vec<char>| v@) == enabled_names(ov, i as int),
        decreases outputs@.len() - i,
    {
        assert(ov[i as int] == output_view(outputs@[i as int]));
        if outputs[i].enabled {
            let c = chars_of(outputs[i].name.as_str());
            let ghost before = en@.map_values(|v: Vec<char>| v@);
            en.push(c);
            assert(en@.map_values(|v: Vec<char>| v@) =~= before.push(c@));
        }
        i += 1;
    }
    en
}

fn names_contain(names: &Vec<Vec<char>>, target: &[char]) -> (r: bool)
    ensures
        r == names@.map_values(|v: Vec<char>| v@).contains(target@),
{
    let ghost nv = names@.map_values(|v: Vec<char>| v@);
    let mut i: usize = 0;
    while i < names.len()
        invariant
            i <= names@.len(),
            nv == names@.map_values(|v: Vec<char>| v@),
            forall|k: int| 0 <= k < i ==> nv[k] != target@,
        decreases names@.len() - i,
    {
        if chars_eq(names[i].as_slice(), target) {
            assert(nv[i as int] == target@);
            assert(nv.contains(target@));
            return true;
        }
        i += 1;
    }
    proof {
        if nv.contains(target@) {
            let k = choose|k: int| 0 <= k < nv.len() && nv[k] == target@;
            assert(nv[k] != target@);
        }
    }
    false
}

pub fn select_tablet_output(outputs: &[KscreenOutput], preferred: Option<&str>) -> (r: Option<
    String,
>)
    ensures
        opt_string(r) == spec_select_tablet_output(outputs_view(outputs@), opt_str_view(preferred)),
{
    let en = enabled_names_of(outputs);
    let ghost ev = en@.map_values(|v: Vec<char>| v@);
    if let Some(p) = preferred {
        let pc = chars_of(p);
        if names_contain(&en, pc.as_slice()) {
            return Some(string_from(p));
        }
    }
    let mut i: usize = 0;
    while i < en.len()
        invariant
            i <= en@.len(),
            ev == en@.map_values(|v: Vec<char>| v@),
            ev == enabled_names(outputs_view(outputs@), outputs@.len() as int),
            !(opt_str_view(preferred) is Some && ev.contains(opt_str_view(preferred)->0)),
            first_with_prefix(ev, "Virtual-ORBISCREEN-"@, 0) == first_with_prefix(
                ev,
                "Virtual-ORBISCREEN-"@,
                i as int,
            ),
        decreases en@.len() - i,
    {
        assert(en@[i as int]@ == ev[i as int]);
        if chars_starts_with_str(en[i].as_slice(), "Virtual-ORBISCREEN-") {
            return Some(string_of(en[i].as_slice()));
        }
        i += 1;
    }
    let conn = chars_of(VIRTUAL_OUTPUT_CONNECTOR);
    if names_contain(&en, conn.as_slice()) {
        return Some(string_from(VIRTUAL_OUTPUT_CONNECTOR));
    }
    None
}

/// The index of the first enabled output named `name` from `i` on, or the
/// length where there is none.
pub open spec fn first_enabled_named(outs: Seq<OutputView>, name: Seq<char>, i: int) -> int
    decreases outs.len() - i,
{
    if i < 0 || i >= outs.len() {
        outs.len() as int
    } else if outs[i].2 && outs[i].0 == name {
        i
    } else {
        first_enabled_named(outs, name, i + 1)
    }
}

/// The UUID of the first enabled output named `name`, if it has one.
pub open spec fn spec_uuid_of(outs: Seq<OutputView>, name: Seq<char>) -> Option<Seq<char>> {
    let k = first_enabled_named(outs, name, 0);
    if k < outs.len() {
        outs[k].1
    } else {
        None
    }
}

pub fn output_uuid_in(outputs: &[KscreenOutput], name: &str) -> (r: Option<String>)
    ensures
        opt_string(r) == spec_uuid_of(outputs_view(outputs@), name@),
{
    let ghost ov = outputs_view(outputs@);
    let target = chars_of(name);
    let mut i: usize = 0;
    while i < outputs.len()
        invariant
            i <= outputs@.len(),
            ov == outputs_view(outputs@),
            target@ == name@,
            first_enabled_named(ov, name@, 0) == first_enabled_named(ov, name@, i as int),
        decreases outputs@.len() - i,
    {
        assert(ov[i as int] == output_view(outputs@[i as int]));
        let o = &outputs[i];
        let c = chars_of(o.name.as_str());
        if o.enabled && chars_eq(c.as_slice(), target.as_slice()) {
            return match &o.uuid {
                Some(u) => Some(u.clone()),
                None => None,
            };
        }
        i += 1;
    }
    None
}

/// The enabled portal leftovers among the first `n` outputs, in order.
pub open spec fn stale_upto(outs: Seq<OutputView>, n: int) -> Seq<Seq<char>>
    decreases n,
{
    if n <= 0 {
        seq![]
    } else if outs[n - 1].2 && spec_is_portal_virtual_output(outs[n - 1].0) {
        stale_upto(outs, n - 1).push(outs[n - 1].0)
    } else {
        stale_upto(outs, n - 1)
    }
}

/// The enabled outputs that the portal left behind, to be switched off.
pub fn stale_portal_outputs(outputs: &[KscreenOutput]) -> (r: Vec<String>)
    ensures
        r@.map_values(|s: String| s@) == stale_upto(
            outputs_view(outputs@),
            outputs@.len() as int,
        ),
{
    let ghost ov = outputs_view(outputs@);
    let mut out: Vec<String> = Vec::new();
    let mut i: usize = 0;
    while i < outputs.len()
        invariant
            i <= outputs@.len(),
            ov == outputs_view(outputs@),
            out@.map_values(|s: String| s@) == stale_upto(ov, i as int),
        decreases outputs@.len() - i,
    {
        assert(ov[i as int] == output_view(outputs@[i as int]));
        let o = &outputs[i];
        if o.enabled && is_portal_virtual_output(o.name.as_str()) {
            let ghost before = out@.map_values(|s: String| s@);
            out.push(o.name.clone());
            assert(out@.map_values(|s: String| s@) =~= before.push(o.name@));
        }
        i += 1;
    }
    out
}

/// The `kscreen-doctor` argument that switches output `name` off.
pub fn disable_output_arg(name: &str) -> (r: String)
    ensures
        r@ == "output."@ + name@ + ".disable"@,
{
    let mut s = string_from("output.");
    s.append(name);
    s.append(".disable");
    s
}

} // verus!
