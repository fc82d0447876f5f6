//! The scan that decides, from the names of the running programs and the
//! configured triggers, whether Discord presence is hidden.
use crate::config::Trigger;
use vstd::prelude::*;

verus! {

/// What a scan decides.
#[derive(Debug)]
pub enum Status {
    /// Hide presence.
    Hide,
    /// Show presence.
    Show,
    /// Hide presence if a window shows one of these titles.
    CheckWindow(Vec<String>),
}

/// What a `Status` holds.
pub enum StatusView {
    Hide,
    Show,
    CheckWindow(Seq<Seq<char>>),
}

impl View for Status {
    type V = StatusView;

    open spec fn view(&self) -> StatusView {
        match self {
            Status::Hide => StatusView::Hide,
            Status::Show => StatusView::Show,
            Status::CheckWindow(v) => StatusView::CheckWindow(v@.map_values(|s: String| s@)),
        }
    }
}

/// The trigger names the program.
pub open spec fn names(t: Trigger, process: Seq<char>) -> bool {
    t.process_name@ == process
}

/// The window titles asked for by those triggers that name `process`, in
/// trigger order.
pub open spec fn patterns_for(process: Seq<char>, triggers: Seq<Trigger>) -> Seq<Seq<char>>
    decreases triggers.len(),
{
    if triggers.len() == 0 {
        seq![]
    } else {
        let rest = patterns_for(process, triggers.drop_last());
        let t = triggers.last();
        match t.window_name {
            Some(w) => if names(t, process) {
                rest.push(w@)
            } else {
                rest
            },
            None => rest,
        }
    }
}

/// The window titles asked for by the triggers that name a running program:
/// program by program, and for each program in trigger order.
pub open spec fn all_patterns(processes: Seq<String>, triggers: Seq<Trigger>) -> Seq<Seq<char>>
    decreases processes.len(),
{
    if processes.len() == 0 {
        seq![]
    } else {
        all_patterns(processes.drop_last(), triggers) + patterns_for(
            processes.last()@,
            triggers,
        )
    }
}

/// Some trigger without a window title names a running program.
pub open spec fn any_window_match(processes: Seq<String>, triggers: Seq<Trigger>) -> bool {
    exists|i: int, j: int|
        0 <= i < processes.len() && 0 <= j < triggers.len() && names(
            #[trigger] triggers[j],
            #[trigger] processes[i]@,
        ) && triggers[j].window_name is None
}

/// Some trigger names a running program.
pub open spec fn any_match(processes: Seq<String>, triggers: Seq<Trigger>) -> bool {
    exists|i: int, j: int|
        0 <= i < processes.len() && 0 <= j < triggers.len() && names(
            #[trigger] triggers[j],
            #[trigger] processes[i]@,
        )
}

/// The status before window titles are looked at: hide when a trigger that
/// asks for no window title names a running program; otherwise check the
/// titles asked for by the triggers that name running programs, if any;
/// otherwise show.
pub open spec fn best_status_spec(processes: Seq<String>, triggers: Seq<Trigger>) -> StatusView {
    if any_window_match(processes, triggers) {
        StatusView::Hide
    } else if all_patterns(processes, triggers).len() > 0 {
        StatusView::CheckWindow(all_patterns(processes, triggers))
    } else {
        StatusView::Show
    }
}

/// The status that a scan reports.
pub open spec fn scan_status_spec(processes: Seq<String>, triggers: Seq<Trigger>) -> StatusView {
    match best_status_spec(processes, triggers) {
        StatusView::CheckWindow(_) => StatusView::Hide,
        s => s,
    }
}

/// Adds `process` to the programs seen: the titles asked for grow by those of
/// the triggers that name it.
proof fn lemma_all_patterns_push(processes: Seq<String>, p: String, triggers: Seq<Trigger>)
    ensures
        all_patterns(processes.push(p), triggers) == all_patterns(processes, triggers)
            + patterns_for(p@, triggers),
{
    assert(processes.push(p).drop_last() =~= processes);
}

/// Looks at the triggers up to `j` for one program.
proof fn lemma_patterns_for_push(process: Seq<char>, triggers: Seq<Trigger>, j: int)
    requires
        0 <= j < triggers.len(),
    ensures
        patterns_for(process, triggers.take(j + 1)) == match triggers[j].window_name {
            Some(w) => if names(triggers[j], process) {
                patterns_for(process, triggers.take(j)).push(w@)
            } else {
                patterns_for(process, triggers.take(j))
            },
            None => patterns_for(process, triggers.take(j)),
        },
{
    assert(triggers.take(j + 1).drop_last() =~= triggers.take(j));
}

/// A trigger without a window title that names one of the first programs
/// names one of all the programs.
proof fn lemma_window_match_prefix(processes: Seq<String>, triggers: Seq<Trigger>, k: int)
    requires
        0 <= k <= processes.len(),
        any_window_match(processes.take(k), triggers),
    ensures
        any_window_match(processes, triggers),
{
    let (i, j) = choose|i: int, j: int|
        0 <= i < processes.take(k).len() && 0 <= j < triggers.len() && names(
            #[trigger] triggers[j],
            #[trigger] processes.take(k)[i]@,
        ) && triggers[j].window_name is None;
    assert(processes.take(k)[i] == processes[i]);
    assert(names(triggers[j], processes[i]@));
}

/// The first `i + 1` programs hold no program named by a trigger without a
/// window title when the first `i` do not and program `i` is named by none.
proof fn lemma_window_match_extend(processes: Seq<String>, triggers: Seq<Trigger>, i: int)
    requires
        0 <= i < processes.len(),
        !any_window_match(processes.take(i), triggers),
        forall|m: int|
            0 <= m < triggers.len() ==> !(names(#[trigger] triggers[m], processes[i]@)
                && triggers[m].window_name is None),
    ensures
        !any_window_match(processes.take(i + 1), triggers),
        processes.take(i + 1) == processes.take(i).push(processes[i]),
{
    assert(processes.take(i + 1) =~= processes.take(i).push(processes[i]));
    if any_window_match(processes.take(i + 1), triggers) {
        let (a, b) = choose|a: int, b: int|
            0 <= a < processes.take(i + 1).len() && 0 <= b < triggers.len() && names(
                #[trigger] triggers[b],
                #[trigger] processes.take(i + 1)[a]@,
            ) && triggers[b].window_name is None;
        if a < i {
            assert(processes.take(i)[a] == processes.take(i + 1)[a]);
            assert(names(triggers[b], processes.take(i)[a]@));
        } else {
            assert(names(triggers[b], processes[i]@));
        }
    }
}

/// The status before window titles are looked at (see `best_status_spec`).
pub fn best_status(processes: &Vec<String>, triggers: &Vec<Trigger>) -> (s: Status)
    ensures
        s@ == best_status_spec(processes@, triggers@),
{
    let mut best = Status::Show;
    let np: usize = processes.len();
    let nt: usize = triggers.len();
    let mut i: usize = 0;
    while i < np
        invariant_except_break
            np == processes@.len(),
            nt == triggers@.len(),
            0 <= i <= np,
            !any_window_match(processes@.take(i as int), triggers@),
            best@ == (if all_patterns(processes@.take(i as int), triggers@).len() > 0 {
                StatusView::CheckWindow(all_patterns(processes@.take(i as int), triggers@))
            } else {
                StatusView::Show
            }),
        ensures
            np == processes@.len(),
            best is Hide ==> any_window_match(processes@, triggers@),
            !(best is Hide) ==> {
                &&& !any_window_match(processes@.take(np as int), triggers@)
                &&& best@ == (if all_patterns(processes@.take(np as int), triggers@).len() > 0 {
                    StatusView::CheckWindow(all_patterns(processes@.take(np as int), triggers@))
                } else {
                    StatusView::Show
                })
            },
        decreases np - i,
    {
        let ghost before = all_patterns(processes@.take(i as int), triggers@);
        let mut j: usize = 0;
        while j < nt
            invariant_except_break
                np == processes@.len(),
                nt == triggers@.len(),
                0 <= i < np,
                0 <= j <= nt,
                before == all_patterns(processes@.take(i as int), triggers@),
                !any_window_match(processes@.take(i as int), triggers@),
                forall|m: int|
                    0 <= m < j ==> !(names(#[trigger] triggers@[m], processes@[i as int]@)
                        && triggers@[m].window_name is None),
                best@ == (if before.len() + patterns_for(
                    processes@[i as int]@,
                    triggers@.take(j as int),
                ).len() > 0 {
                    StatusView::CheckWindow(
                        before + patterns_for(processes@[i as int]@, triggers@.take(j as int)),
                    )
                } else {
                    StatusView::Show
                }),
            ensures
                np == processes@.len(),
                nt == triggers@.len(),
                0 <= i < np,
                before == all_patterns(processes@.take(i as int), triggers@),
                !any_window_match(processes@.take(i as int), triggers@),
                best is Hide ==> any_window_match(processes@.take(i + 1), triggers@),
                !(best is Hide) ==> {
                    &&& forall|m: int|
                        0 <= m < nt ==> !(names(#[trigger] triggers@[m], processes@[i as int]@)
                            && triggers@[m].window_name is None)
                    &&& best@ == (if before.len() + patterns_for(
                        processes@[i as int]@,
                        triggers@.take(nt as int),
                    ).len() > 0 {
                        StatusView::CheckWindow(
                            before + patterns_for(processes@[i as int]@, triggers@.take(nt as int)),
                        )
                    } else {
                        StatusView::Show
                    })
                },
            decreases nt - j,
        {
            proof {
                lemma_patterns_for_push(processes@[i as int]@, triggers@, j as int);
            }
            if processes[i] == triggers[j].process_name {
                match &triggers[j].window_name {
                    None => {
                        best = Status::Hide;
                        proof {
                            let ps = processes@.take(i + 1);
                            assert(ps[i as int] == processes@[i as int]);
                            assert(names(triggers@[j as int], ps[i as int]@));
                            assert(any_window_match(ps, triggers@));
                        }
                    },
                    Some(a) => {
                        let ghost old_view = best@;
                        best =
                        match best {
                            Status::Hide => Status::Hide,
                            Status::Show => {
                                let mut v: Vec<String> = Vec::new();
                                v.push(a.clone());
                                proof {
                                    assert(v@.map_values(|s: String| s@) =~= seq![a@]);
                                }
                                Status::CheckWindow(v)
                            },
                            Status::CheckWindow(mut v) => {
                                let ghost old_v = v@;
                                v.push(a.clone());
                                proof {
                                    assert(v@.map_values(|s: String| s@) =~= old_v.map_values(
                                        |s: String| s@,
                                    ).push(a@));
                                }
                                Status::CheckWindow(v)
                            },
                        };
                        proof {
                            let pf = patterns_for(processes@[i as int]@, triggers@.take(j as int));
                            assert((before + pf).push(a@) =~= before + pf.push(a@));
                            if old_view is Show {
                                assert(before + pf =~= Seq::<Seq<char>>::empty());
                                assert(seq![a@] =~= (before + pf).push(a@));
                            }
                            assert(best@ == StatusView::CheckWindow((before + pf).push(a@)));
                        }
                    },
                }
            }
            if matches!(best, Status::Hide) {
                break ;
            }
            j = j + 1;
        }
        proof {
            if !(best is Hide) {
                let p = processes@[i as int];
                assert(triggers@.take(nt as int) =~= triggers@);
                lemma_window_match_extend(processes@, triggers@, i as int);
                lemma_all_patterns_push(processes@.take(i as int), p, triggers@);
            }
        }
        if matches!(best, Status::Hide) {
            proof {
                lemma_window_match_prefix(processes@, triggers@, i + 1);
            }
            break ;
        }
        i = i + 1;
    }
    proof {
        assert(processes@.take(np as int) =~= processes@);
    }
    best
}

/// The status for a list of window titles to look for. Window titles are not
/// inspected yet: every such list hides presence.
pub fn check_title_regex(patterns: &Vec<String>) -> (s: Status)
    ensures
        s@ == StatusView::Hide,
{
    Status::Hide
}

/// One scan: the status before window titles are looked at, with a list of
/// titles to look for decided by `check_title_regex`.
pub fn scan_status(processes: &Vec<String>, triggers: &Vec<Trigger>) -> (s: Status)
    ensures
        s@ == scan_status_spec(processes@, triggers@),
{
    let best = best_status(processes, triggers);
    match best {
        Status::CheckWindow(a) => check_title_regex(&a),
        _ => best,
    }
}

/// Titles are asked for a program exactly when some trigger with a window
/// title names it.
proof fn lemma_patterns_for_nonempty(process: Seq<char>, triggers: Seq<Trigger>)
    ensures
        patterns_for(process, triggers).len() > 0 <==> exists|j: int|
            0 <= j < triggers.len() && names(#[trigger] triggers[j], process)
                && triggers[j].window_name is Some,
    decreases triggers.len(),
{
    if triggers.len() > 0 {
        let rest = triggers.drop_last();
        lemma_patterns_for_nonempty(process, rest);
        if exists|j: int|
            0 <= j < rest.len() && names(#[trigger] rest[j], process)
                && rest[j].window_name is Some {
            let j: int = choose|j: int|
                0 <= j < rest.len() && names(#[trigger] rest[j], process)
                    && rest[j].window_name is Some;
            assert(triggers[j] == rest[j]);
        }
        if exists|j: int|
            0 <= j < triggers.len() && names(#[trigger] triggers[j], process)
                && triggers[j].window_name is Some {
            let j: int = choose|j: int|
                0 <= j < triggers.len() && names(#[trigger] triggers[j], process)
                    && triggers[j].window_name is Some;
            if j < rest.len() {
                assert(rest[j] == triggers[j]);
            }
        }
    }
}

/// Titles are asked for the running programs exactly when some trigger with a
/// window title names one of them.
proof fn lemma_all_patterns_nonempty(processes: Seq<String>, triggers: Seq<Trigger>)
    ensures
        all_patterns(processes, triggers).len() > 0 <==> exists|i: int, j: int|
            0 <= i < processes.len() && 0 <= j < triggers.len() && names(
                #[trigger] triggers[j],
                #[trigger] processes[i]@,
            ) && triggers[j].window_name is Some,
    decreases processes.len(),
{
    if processes.len() > 0 {
        let rest = processes.drop_last();
        let last = processes.last();
        lemma_all_patterns_nonempty(rest, triggers);
        lemma_patterns_for_nonempty(last@, triggers);
        if exists|i: int, j: int|
            0 <= i < rest.len() && 0 <= j < triggers.len() && names(
                #[trigger] triggers[j],
                #[trigger] rest[i]@,
            ) && triggers[j].window_name is Some {
            let (i, j) = choose|i: int, j: int|
                0 <= i < rest.len() && 0 <= j < triggers.len() && names(
                    #[trigger] triggers[j],
                    #[trigger] rest[i]@,
                ) && triggers[j].window_name is Some;
            assert(processes[i] == rest[i]);
            assert(names(triggers[j], processes[i]@));
        }
        if patterns_for(last@, triggers).len() > 0 {
            let j: int = choose|j: int|
                0 <= j < triggers.len() && names(#[trigger] triggers[j], last@)
                    && triggers[j].window_name is Some;
            assert(processes[processes.len() - 1] == last);
            assert(names(triggers[j], processes[processes.len() - 1]@));
        }
        if exists|i: int, j: int|
            0 <= i < processes.len() && 0 <= j < triggers.len() && names(
                #[trigger] triggers[j],
                #[trigger] processes[i]@,
            ) && triggers[j].window_name is Some {
            let (i, j) = choose|i: int, j: int|
                0 <= i < processes.len() && 0 <= j < triggers.len() && names(
                    #[trigger] triggers[j],
                    #[trigger] processes[i]@,
                ) && triggers[j].window_name is Some;
            if i < rest.len() {
                assert(rest[i] == processes[i]);
                assert(names(triggers[j], rest[i]@));
            } else {
                assert(names(triggers[j], last@));
            }
        }
    }
}

/// A scan hides presence exactly when some trigger names a running program,
/// and shows it otherwise.
pub proof fn lemma_scan_hides_iff_trigger_runs(processes: Seq<String>, triggers: Seq<Trigger>)
    ensures
        scan_status_spec(processes, triggers) == if any_match(processes, triggers) {
            StatusView::Hide
        } else {
            StatusView::Show
        },
{
    lemma_all_patterns_nonempty(processes, triggers);
    if any_window_match(processes, triggers) {
        let (i, j) = choose|i: int, j: int|
            0 <= i < processes.len() && 0 <= j < triggers.len() && names(
                #[trigger] triggers[j],
                #[trigger] processes[i]@,
            ) && triggers[j].window_name is None;
        assert(names(triggers[j], processes[i]@));
    } else if all_patterns(processes, triggers).len() > 0 {
        let (i, j) = choose|i: int, j: int|
            0 <= i < processes.len() && 0 <= j < triggers.len() && names(
                #[trigger] triggers[j],
                #[trigger] processes[i]@,
            ) && triggers[j].window_name is Some;
        assert(names(triggers[j], processes[i]@));
    } else if any_match(processes, triggers) {
        let (i, j) = choose|i: int, j: int|
            0 <= i < processes.len() && 0 <= j < triggers.len() && names(
                #[trigger] triggers[j],
                #[trigger] processes[i]@,
            );
        if triggers[j].window_name is None {
            assert(any_window_match(processes, triggers));
        } else {
            assert(names(triggers[j], processes[i]@) && triggers[j].window_name is Some);
        }
    }
}

/// A trigger whose process name equals, character for character, the name
/// of a running program hides presence; when the trigger asks for no window
/// title, the status is `Hide` before any window is looked at.
pub proof fn lemma_same_name_hides(processes: Seq<String>, triggers: Seq<Trigger>, i: int, j: int)
    requires
        0 <= i < processes.len(),
        0 <= j < triggers.len(),
        triggers[j].process_name@ == processes[i]@,
    ensures
        scan_status_spec(processes, triggers) == StatusView::Hide,
        triggers[j].window_name is None ==> best_status_spec(processes, triggers)
            == StatusView::Hide,
{
    assert(names(triggers[j], processes[i]@));
    lemma_scan_hides_iff_trigger_runs(processes, triggers);
}

/// When no trigger's process name equals the name of any running program,
/// presence is shown, and no window is looked at.
pub proof fn lemma_no_same_name_shows(processes: Seq<String>, triggers: Seq<Trigger>)
    requires
        forall|i: int, j: int|
            0 <= i < processes.len() && 0 <= j < triggers.len() ==> #[trigger] triggers[j].process_name@
                != #[trigger] processes[i]@,
    ensures
        scan_status_spec(processes, triggers) == StatusView::Show,
        best_status_spec(processes, triggers) == StatusView::Show,
{
    lemma_scan_hides_iff_trigger_runs(processes, triggers);
    if any_match(processes, triggers) {
        let (i, j) = choose|i: int, j: int|
            0 <= i < processes.len() && 0 <= j < triggers.len() && names(
                #[trigger] triggers[j],
                #[trigger] processes[i]@,
            );
        assert(triggers[j].process_name@ != processes[i]@);
    }
}

} // verus!
