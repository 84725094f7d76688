//! Classification of response prose.
//!
//! The system prompt asks the model to open with a plan — numbered steps
//! between a `<plan>` line and a `</plan>` line — and to mark progress with
//! `[STEP n START]` / `[STEP n DONE]` lines. One text block of a response
//! yields one event: the plan (on the first response), a step boundary, or
//! plain prose.

use vstd::prelude::*;
use vstd::string::StrSliceExecFns;
use crate::catalog::{lemma_find_first_props, spec_find_first};
use crate::strutil::str_eq;
use crate::types::{AgentEvent, PlanStepInfo, PlanStepView};

verus! {

/// A decimal digit.
pub open spec fn spec_is_digit(c: char) -> bool {
    48 <= c as u32 <= 57
}

/// How many leading characters of `l` are digits.
pub open spec fn spec_digit_run(l: Seq<char>) -> int
    decreases l.len(),
{
    if l.len() == 0 || !spec_is_digit(l.first()) {
        0
    } else {
        1 + spec_digit_run(l.drop_first())
    }
}

/// The digit run: its characters are digits, and it is maximal.
pub proof fn lemma_digit_run_props(l: Seq<char>)
    ensures
        0 <= spec_digit_run(l) <= l.len(),
        forall|j: int| 0 <= j < spec_digit_run(l) ==> spec_is_digit(#[trigger] l[j]),
        spec_digit_run(l) < l.len() ==> !spec_is_digit(l[spec_digit_run(l)]),
    decreases l.len(),
{
    if l.len() != 0 && spec_is_digit(l.first()) {
        lemma_digit_run_props(l.drop_first());
        let k = spec_digit_run(l);
        assert forall|j: int| 0 <= j < k implies spec_is_digit(#[trigger] l[j]) by {
            if j > 0 {
                assert(l.drop_first()[j - 1] == l[j]);
            }
        }
        if k < l.len() {
            assert(l.drop_first()[k - 1] == l[k]);
        }
    }
}

/// The number a digit sequence denotes.
pub open spec fn spec_digits_value(ds: Seq<char>) -> int
    decreases ds.len(),
{
    if ds.len() == 0 {
        0
    } else {
        spec_digits_value(ds.drop_last()) * 10 + (ds.last() as u32 - 48)
    }
}

/// `n` digits denote less than `10^n`.
pub proof fn lemma_digits_value_bound(ds: Seq<char>)
    requires
        forall|j: int| 0 <= j < ds.len() ==> spec_is_digit(#[trigger] ds[j]),
    ensures
        0 <= spec_digits_value(ds) < spec_pow10(ds.len() as int),
    decreases ds.len(),
{
    if ds.len() != 0 {
        lemma_digits_value_bound(ds.drop_last());
    }
}

/// Ten to the `n`.
pub open spec fn spec_pow10(n: int) -> int
    decreases n,
{
    if n <= 0 {
        1
    } else {
        10 * spec_pow10(n - 1)
    }
}

/// A plan step line: one to nine digits, a dot, a space, the description.
pub open spec fn spec_parse_step_line(l: Seq<char>) -> Option<PlanStepView> {
    let k = spec_digit_run(l);
    if 1 <= k <= 9 && k + 2 <= l.len() && l[k] == '.' && l[k + 1] == ' ' {
        Some(PlanStepView { step: spec_digits_value(l.take(k)), description: l.skip(k + 2) })
    } else {
        None
    }
}

/// The steps among the given lines, in order; lines that are not steps
/// (the delimiters were already removed) are passed over.
pub open spec fn spec_steps_of_lines(ls: Seq<Seq<char>>) -> Seq<PlanStepView>
    decreases ls.len(),
{
    if ls.len() == 0 {
        Seq::empty()
    } else {
        let rest = spec_steps_of_lines(ls.drop_last());
        match spec_parse_step_line(ls.last()) {
            Some(st) => rest.push(st),
            None => rest,
        }
    }
}

/// The lines of a text: split on `'\n'`, keeping empty lines.
pub open spec fn spec_lines(t: Seq<char>) -> Seq<Seq<char>> {
    spec_lines_acc(t, Seq::empty(), Seq::empty())
}

/// Splitting what is left of `t`, with the finished lines and the current
/// partial line carried along.
pub open spec fn spec_lines_acc(t: Seq<char>, done: Seq<Seq<char>>, cur: Seq<char>) -> Seq<
    Seq<char>,
>
    decreases t.len(),
{
    if t.len() == 0 {
        done.push(cur)
    } else if t.first() == '\n' {
        spec_lines_acc(t.drop_first(), done.push(cur), Seq::empty())
    } else {
        spec_lines_acc(t.drop_first(), done, cur.push(t.first()))
    }
}

/// The plan a text carries: the steps parsed from the lines strictly
/// between its first `<plan>` line and the next `</plan>` line, if both
/// delimiters are present.
pub open spec fn spec_plan_of(t: Seq<char>) -> Option<Seq<PlanStepView>> {
    let ls = spec_lines(t);
    match spec_find_first(ls, "<plan>"@) {
        Some(i) => match spec_find_first(ls.skip(i + 1), "</plan>"@) {
            Some(j) => Some(spec_steps_of_lines(ls.skip(i + 1).take(j))),
            None => None,
        },
        None => None,
    }
}

/// `t` without one trailing newline, if it has one.
pub open spec fn spec_strip_nl(t: Seq<char>) -> Seq<char> {
    if t.len() > 0 && t.last() == '\n' {
        t.drop_last()
    } else {
        t
    }
}

/// A step-boundary marker: exactly `[STEP n START]` (true) or
/// `[STEP n DONE]` (false), one to nine digits, one trailing newline
/// tolerated.
pub open spec fn spec_step_marker(t: Seq<char>) -> Option<(int, bool)> {
    let s = spec_strip_nl(t);
    if s.len() >= 6 && s.take(6) == "[STEP "@ {
        let rest = s.skip(6);
        let k = spec_digit_run(rest);
        if 1 <= k <= 9 {
            let num = spec_digits_value(rest.take(k));
            if rest.skip(k) == " START]"@ {
                Some((num, true))
            } else if rest.skip(k) == " DONE]"@ {
                Some((num, false))
            } else {
                None
            }
        } else {
            None
        }
    } else {
        None
    }
}

/// The one event a text block of a response yields: the plan it carries —
/// only on the run's first response — else the step boundary it marks,
/// else the prose itself.
pub open spec fn spec_text_event(t: Seq<char>, first: bool, e: AgentEvent) -> bool {
    if first && spec_plan_of(t) is Some {
        e matches AgentEvent::Plan { steps } && Some(
            steps@.map_values(|p: PlanStepInfo| p@),
        ) == spec_plan_of(t)
    } else {
        match spec_step_marker(t) {
            Some((n, true)) => e matches AgentEvent::StepStart { step } && step == n,
            Some((n, false)) => e matches AgentEvent::StepDone { step } && step == n,
            None => e matches AgentEvent::Text { content } && content@ == t,
        }
    }
}

/// A classified text block never closes a turn or ends the run.
pub proof fn lemma_text_event_is_progress(t: Seq<char>, first: bool, e: AgentEvent)
    requires
        spec_text_event(t, first, e),
    ensures
        !(e is TurnComplete),
        !(e is Done),
        !(e is Error),
{
}

/// A maximal digit prefix of length `k` is what `spec_digit_run` counts.
proof fn lemma_digit_run_hit(l: Seq<char>, k: int)
    requires
        0 <= k <= l.len(),
        forall|j: int| 0 <= j < k ==> spec_is_digit(#[trigger] l[j]),
        k < l.len() ==> !spec_is_digit(l[k]),
    ensures
        spec_digit_run(l) == k,
    decreases k,
{
    if k > 0 {
        assert(spec_is_digit(l.first()));
        assert forall|j: int| 0 <= j < k - 1 implies spec_is_digit(#[trigger] l.drop_first()[j]) by {
            assert(l.drop_first()[j] == l[j + 1]);
        }
        if k - 1 < l.drop_first().len() {
            assert(l.drop_first()[k - 1] == l[k]);
        }
        lemma_digit_run_hit(l.drop_first(), k - 1);
    }
}

/// The length of the leading digit run, by linear scan.
fn digit_run(s: &str) -> (k: usize)
    ensures
        k as int == spec_digit_run(s@),
        k as int <= s@.len(),
{
    let n = s.unicode_len();
    let mut i: usize = 0;
    while i < n
        invariant
            i <= n,
            n == s@.len(),
            forall|j: int| 0 <= j < i ==> spec_is_digit(#[trigger] s@[j]),
        decreases n - i,
    {
        let c = s.get_char(i);
        let cu = c as u32;
        if !(48 <= cu && cu <= 57) {
            proof {
                lemma_digit_run_hit(s@, i as int);
            }
            return i;
        }
        i = i + 1;
    }
    proof {
        lemma_digit_run_hit(s@, n as int);
    }
    n
}

/// The number the first `k` digits denote; `k` is at most nine, so the
/// value fits comfortably.
fn digits_value(s: &str, k: usize) -> (v: u32)
    requires
        1 <= k <= 9,
        k as int <= s@.len(),
        forall|j: int| 0 <= j < k ==> spec_is_digit(#[trigger] s@[j]),
    ensures
        v as int == spec_digits_value(s@.take(k as int)),
        v < 1000000000,
{
    proof {
        assert(spec_pow10(0) == 1);
        assert(spec_pow10(1) == 10);
        assert(spec_pow10(2) == 100);
        assert(spec_pow10(3) == 1000);
        assert(spec_pow10(4) == 10000);
        assert(spec_pow10(5) == 100000);
        assert(spec_pow10(6) == 1000000);
        assert(spec_pow10(7) == 10000000);
        assert(spec_pow10(8) == 100000000);
        assert(spec_pow10(9) == 1000000000);
    }
    let mut v: u32 = 0;
    let mut i: usize = 0;
    while i < k
        invariant
            i <= k <= 9,
            k as int <= s@.len(),
            forall|j: int| 0 <= j < k ==> spec_is_digit(#[trigger] s@[j]),
            v as int == spec_digits_value(s@.take(i as int)),
            (v as int) < spec_pow10(i as int),
            spec_pow10(8) == 100000000,
            spec_pow10(9) == 1000000000,
        decreases k - i,
    {
        let c = s.get_char(i);
        let d = (c as u32) - 48;
        proof {
            lemma_pow10_mono(i as int, 8);
            assert(s@.take(i + 1).drop_last() =~= s@.take(i as int));
            assert(s@.take(i + 1).last() == s@[i as int]);
        }
        v = v * 10 + d;
        proof {
            lemma_pow10_mono(i + 1, 9);
        }
        i = i + 1;
    }
    v
}

/// Ten to the `n` grows with `n`.
proof fn lemma_pow10_mono(a: int, b: int)
    requires
        0 <= a <= b,
    ensures
        spec_pow10(a) <= spec_pow10(b),
        spec_pow10(a) >= 1,
    decreases b - a,
{
    if a < b {
        lemma_pow10_mono(a, b - 1);
    } else {
        lemma_pow10_pos(a);
    }
}

/// Ten to the `n` is positive.
proof fn lemma_pow10_pos(n: int)
    ensures
        spec_pow10(n) >= 1,
    decreases (if n <= 0 {
        0int
    } else {
        n
    }),
{
    if n > 0 {
        lemma_pow10_pos(n - 1);
    }
}

/// Parse one line as a plan step: digits, a dot, a space, the description.
pub fn parse_step_line(l: &str) -> (r: Option<PlanStepInfo>)
    ensures
        (match r {
            Some(p) => spec_parse_step_line(l@) == Some(p@),
            None => spec_parse_step_line(l@) is None,
        }),
{
    let n = l.unicode_len();
    let k = digit_run(l);
    if k < 1 || k > 9 || k + 2 > n {
        return None;
    }
    if l.get_char(k) != '.' {
        return None;
    }
    if l.get_char(k + 1) != ' ' {
        return None;
    }
    proof {
        lemma_digit_run_props(l@);
    }
    let v = digits_value(l, k);
    let description = l.substring_char(k + 2, n).to_owned();
    let step: i32 = v as i32;
    let p = PlanStepInfo { step, description };
    proof {
        assert(p@.description =~= l@.skip(k + 2));
    }
    Some(p)
}

/// The lines of a text: split on `'\n'`, keeping empty lines.
pub fn lines(t: &str) -> (r: Vec<String>)
    ensures
        r@.map_values(|l: String| l@) == spec_lines(t@),
{
    let n = t.unicode_len();
    let mut done: Vec<String> = Vec::new();
    let mut start: usize = 0;
    let mut i: usize = 0;
    proof {
        assert(t@.skip(0) =~= t@);
        assert(t@.subrange(0, 0) =~= Seq::<char>::empty());
        assert(done@.map_values(|l: String| l@) =~= Seq::<Seq<char>>::empty());
    }
    while i < n
        invariant
            start <= i <= n,
            n == t@.len(),
            spec_lines_acc(
                t@.skip(i as int),
                done@.map_values(|l: String| l@),
                t@.subrange(start as int, i as int),
            ) == spec_lines(t@),
        decreases n - i,
    {
        let c = t.get_char(i);
        proof {
            assert(t@.skip(i as int).first() == t@[i as int]);
            assert(t@.skip(i as int).drop_first() =~= t@.skip(i + 1));
        }
        if c == '\n' {
            let ghost doneviews = done@.map_values(|l: String| l@);
            done.push(t.substring_char(start, i).to_owned());
            proof {
                assert(done@.map_values(|l: String| l@) =~= doneviews.push(
                    t@.subrange(start as int, i as int),
                ));
                assert(t@.subrange(i + 1, i + 1) =~= Seq::<char>::empty());
            }
            start = i + 1;
        } else {
            proof {
                assert(t@.subrange(start as int, i + 1) =~= t@.subrange(
                    start as int,
                    i as int,
                ).push(t@[i as int]));
            }
        }
        i = i + 1;
    }
    let ghost doneviews = done@.map_values(|l: String| l@);
    done.push(t.substring_char(start, n).to_owned());
    proof {
        assert(t@.skip(n as int) =~= Seq::<char>::empty());
        assert(done@.map_values(|l: String| l@) =~= doneviews.push(
            t@.subrange(start as int, n as int),
        ));
    }
    done
}

/// First line equal to `pat`, at or after `from`.
fn find_line(ls: &Vec<String>, from: usize, pat: &str) -> (r: Option<usize>)
    requires
        from <= ls@.len(),
    ensures
        (match r {
            Some(i) => from <= i < ls@.len() && spec_find_first(
                ls@.map_values(|l: String| l@).skip(from as int),
                pat@,
            ) == Some(i - from),
            None => spec_find_first(
                ls@.map_values(|l: String| l@).skip(from as int),
                pat@,
            ) is None,
        }),
{
    let ghost views = ls@.map_values(|l: String| l@);
    let mut i: usize = from;
    while i < ls.len()
        invariant
            from <= i <= ls@.len(),
            views == ls@.map_values(|l: String| l@),
            forall|j: int| from <= j < i ==> views[j] != pat@,
        decreases ls@.len() - i,
    {
        if str_eq(ls[i].as_str(), pat) {
            proof {
                assert(views.skip(from as int)[i - from] == views[i as int]);
                assert forall|j: int| 0 <= j < i - from implies views.skip(from as int)[j]
                    != pat@ by {
                    assert(views.skip(from as int)[j] == views[j + from]);
                }
                crate::catalog::lemma_find_first_hit(
                    views.skip(from as int),
                    pat@,
                    i - from as int,
                );
            }
            return Some(i);
        }
        i = i + 1;
    }
    proof {
        lemma_find_first_props(views.skip(from as int), pat@);
        if spec_find_first(views.skip(from as int), pat@) is Some {
            let w = spec_find_first(views.skip(from as int), pat@);
            assert(views.skip(from as int)[w->0] == views[w->0 + from]);
        }
    }
    None
}

/// The steps among the lines `from..to`, in order.
fn steps_of_lines(ls: &Vec<String>, from: usize, to: usize) -> (r: Vec<PlanStepInfo>)
    requires
        from <= to <= ls@.len(),
    ensures
        r@.map_values(|p: PlanStepInfo| p@) == spec_steps_of_lines(
            ls@.map_values(|l: String| l@).subrange(from as int, to as int),
        ),
{
    let ghost views = ls@.map_values(|l: String| l@);
    let mut out: Vec<PlanStepInfo> = Vec::new();
    let mut i: usize = from;
    while i < to
        invariant
            from <= i <= to <= ls@.len(),
            views == ls@.map_values(|l: String| l@),
            out@.map_values(|p: PlanStepInfo| p@) == spec_steps_of_lines(
                views.subrange(from as int, i as int),
            ),
        decreases to - i,
    {
        proof {
            assert(views.subrange(from as int, i + 1).drop_last() =~= views.subrange(
                from as int,
                i as int,
            ));
            assert(views.subrange(from as int, i + 1).last() == views[i as int]);
        }
        let ghost prev = out@.map_values(|p: PlanStepInfo| p@);
        match parse_step_line(ls[i].as_str()) {
            Some(p) => {
                out.push(p);
                proof {
                    assert(out@.map_values(|p: PlanStepInfo| p@) =~= prev.push(
                        out@.last()@,
                    ));
                }
            },
            None => {},
        }
        i = i + 1;
    }
    out
}

/// The plan a text carries, if its delimiters are present: the steps of
/// the lines strictly between the first `<plan>` line and the next
/// `</plan>` line.
pub fn plan_of(t: &str) -> (r: Option<Vec<PlanStepInfo>>)
    ensures
        (match r {
            Some(ps) => spec_plan_of(t@) == Some(ps@.map_values(|p: PlanStepInfo| p@)),
            None => spec_plan_of(t@) is None,
        }),
{
    let ls = lines(t);
    let ghost views = ls@.map_values(|l: String| l@);
    proof {
        assert(views.skip(0) =~= views);
    }
    match find_line(&ls, 0, "<plan>") {
        None => None,
        Some(i) => {
            match find_line(&ls, i + 1, "</plan>") {
                None => None,
                Some(j) => {
                    let steps = steps_of_lines(&ls, i + 1, j);
                    proof {
                        assert(views.skip(i + 1).take(j - (i + 1)) =~= views.subrange(
                            i + 1,
                            j as int,
                        ));
                    }
                    Some(steps)
                },
            }
        },
    }
}

/// The step-boundary marker a text block is, if it is exactly one:
/// `[STEP n START]` (true) or `[STEP n DONE]` (false), one trailing
/// newline tolerated.
pub fn step_marker(t: &str) -> (r: Option<(i32, bool)>)
    ensures
        (match r {
            Some(p) => spec_step_marker(t@) == Some((p.0 as int, p.1)),
            None => spec_step_marker(t@) is None,
        }),
{
    let n0 = t.unicode_len();
    let s = if n0 > 0 && t.get_char(n0 - 1) == '\n' {
        t.substring_char(0, n0 - 1)
    } else {
        t
    };
    proof {
        assert(s@ =~= spec_strip_nl(t@));
    }
    let sn = s.unicode_len();
    if sn < 6 {
        return None;
    }
    let head = s.substring_char(0, 6);
    proof {
        assert(head@ =~= s@.take(6));
    }
    if !str_eq(head, "[STEP ") {
        return None;
    }
    let rest = s.substring_char(6, sn);
    proof {
        assert(rest@ =~= s@.skip(6));
    }
    let k = digit_run(rest);
    if k < 1 || k > 9 {
        return None;
    }
    proof {
        lemma_digit_run_props(rest@);
    }
    let v = digits_value(rest, k);
    let rn = rest.unicode_len();
    let tail = rest.substring_char(k, rn);
    proof {
        assert(tail@ =~= rest@.skip(k as int));
    }
    if str_eq(tail, " START]") {
        Some((v as i32, true))
    } else if str_eq(tail, " DONE]") {
        Some((v as i32, false))
    } else {
        None
    }
}

/// Classify one text block of a response into its one event: the plan it
/// carries (first response only), the step boundary it marks, or the
/// prose itself.
pub fn classify_text(text: &str, first: bool) -> (e: AgentEvent)
    ensures
        spec_text_event(text@, first, e),
{
    if first {
        match plan_of(text) {
            Some(steps) => {
                return AgentEvent::Plan { steps };
            },
            None => {},
        }
    }
    match step_marker(text) {
        Some((n, true)) => AgentEvent::StepStart { step: n },
        Some((n, false)) => AgentEvent::StepDone { step: n },
        None => AgentEvent::Text { content: text.to_owned() },
    }
}

} // verus!
