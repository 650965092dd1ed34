//! The prompt/history editor: one key event at a time, switching between
//! live editing and browsing previously submitted lines.

use vstd::prelude::*;

use crate::state::{App, AppV};
use crate::text::{pop_char, push_char, str_eq, trim_spec, trim_str};

verus! {

/// A terminal key, already stripped of its platform encoding.
pub enum Key {
    Char(char),
    Enter,
    Backspace,
    Up,
    Down,
    PageUp,
    PageDown,
    Esc,
    CtrlC,
    Other,
}

/// What the caller must do after a key was handled.
pub enum KeyOutcome {
    /// End the session now.
    Quit,
    /// A line was submitted: dispatch it.
    Submit(String),
    /// Nothing further.
    Stay,
}

/// The browsing index, when set, points into the history.
pub open spec fn prompt_wf(a: AppV) -> bool {
    match a.prompt_history_idx {
        Some(i) => (i as int) < a.prompt_history.len(),
        None => true,
    }
}

// ---------------------------------------------------------------------------
// Transitions
// ---------------------------------------------------------------------------

pub open spec fn up_post(pre: AppV) -> AppV {
    if pre.prompt_history.len() == 0 {
        pre
    } else {
        let i: int = match pre.prompt_history_idx {
            None => pre.prompt_history.len() as int - 1,
            Some(j) => if j > 0 {
                j as int - 1
            } else {
                0int
            },
        };
        AppV {
            prompt_history_idx: Some(i as usize),
            prompt_input: pre.prompt_history[i],
            ..pre
        }
    }
}

pub open spec fn down_post(pre: AppV) -> AppV {
    match pre.prompt_history_idx {
        None => pre,
        Some(j) => if j as int + 1 < pre.prompt_history.len() {
            AppV {
                prompt_history_idx: Some((j + 1) as usize),
                prompt_input: pre.prompt_history[j as int + 1],
                ..pre
            }
        } else {
            AppV {
                prompt_history_idx: None,
                prompt_input: Seq::<char>::empty(),
                ..pre
            }
        },
    }
}

pub open spec fn backspace_post(pre: AppV) -> AppV {
    let inp = if pre.prompt_input.len() > 0 {
        pre.prompt_input.drop_last()
    } else {
        pre.prompt_input
    };
    AppV { prompt_input: inp, prompt_history_idx: None, ..pre }
}

pub open spec fn char_post(pre: AppV, c: char) -> AppV {
    let base = if pre.prompt_input.len() == 0 && c != '/' {
        pre.prompt_input.push('/')
    } else {
        pre.prompt_input
    };
    AppV { prompt_input: base.push(c), prompt_history_idx: None, ..pre }
}

pub open spec fn enter_post(pre: AppV) -> AppV {
    let t = trim_spec(pre.prompt_input);
    if t.len() == 0 {
        pre
    } else {
        let h = if pre.prompt_history.len() > 0 && pre.prompt_history.last() == t {
            pre.prompt_history
        } else {
            pre.prompt_history.push(t)
        };
        AppV {
            prompt_history: h,
            prompt_history_idx: None,
            prompt_input: Seq::<char>::empty(),
            ..pre
        }
    }
}

pub open spec fn page_up_post(pre: AppV) -> AppV {
    AppV {
        content_scroll: if pre.content_scroll >= 10 {
            (pre.content_scroll - 10) as u16
        } else {
            0u16
        },
        ..pre
    }
}

pub open spec fn page_down_post(pre: AppV) -> AppV {
    AppV {
        content_scroll: if pre.content_scroll <= 65525 {
            (pre.content_scroll + 10) as u16
        } else {
            65535u16
        },
        ..pre
    }
}

/// The session state after one key.
pub open spec fn key_post(pre: AppV, k: Key) -> AppV {
    match k {
        Key::Esc => pre,
        Key::CtrlC => pre,
        Key::PageUp => page_up_post(pre),
        Key::PageDown => page_down_post(pre),
        Key::Enter => enter_post(pre),
        Key::Backspace => backspace_post(pre),
        Key::Up => up_post(pre),
        Key::Down => down_post(pre),
        Key::Char(c) => char_post(pre, c),
        Key::Other => pre,
    }
}

/// The outcome owed for one key: quit on the cancel keys, the trimmed line
/// on a non-empty Enter, nothing otherwise.
pub open spec fn key_outcome_ok(pre: AppV, k: Key, r: KeyOutcome) -> bool {
    match k {
        Key::Esc => r is Quit,
        Key::CtrlC => r is Quit,
        Key::Enter => {
            let t = trim_spec(pre.prompt_input);
            if t.len() > 0 {
                r matches KeyOutcome::Submit(s) && s@ == t
            } else {
                r is Stay
            }
        },
        _ => r is Stay,
    }
}

// ---------------------------------------------------------------------------
// Executable editor
// ---------------------------------------------------------------------------

/// Browse one entry up (older); entering browsing from live editing starts
/// at the most recent entry.
pub fn scroll_history_up(app: &mut App)
    requires
        prompt_wf(old(app)@),
    ensures
        final(app)@ == up_post(old(app)@),
        prompt_wf(final(app)@),
{
    let n = app.prompt_history.len();
    if n == 0 {
        return ;
    }
    let new_idx: usize = match app.prompt_history_idx {
        None => n - 1,
        Some(i) => if i > 0 {
            i - 1
        } else {
            0
        },
    };
    app.prompt_history_idx = Some(new_idx);
    app.prompt_input = app.prompt_history[new_idx].clone();
    proof {
        assert(app@.prompt_input == old(app)@.prompt_history[new_idx as int]);
        assert(app@ =~= up_post(old(app)@));
    }
}

/// Browse one entry down (newer); moving past the newest entry returns to
/// live editing with a cleared buffer.
pub fn scroll_history_down(app: &mut App)
    requires
        prompt_wf(old(app)@),
    ensures
        final(app)@ == down_post(old(app)@),
        prompt_wf(final(app)@),
{
    match app.prompt_history_idx {
        None => {},
        Some(i) => {
            let n = app.prompt_history.len();
            proof {
                assert(n == old(app)@.prompt_history.len());
                assert((i as int) + 1 <= n as int);
            }
            if i + 1 < n {
                let new_idx = i + 1;
                app.prompt_history_idx = Some(new_idx);
                app.prompt_input = app.prompt_history[new_idx].clone();
                proof {
                    assert(app@.prompt_input == old(app)@.prompt_history[new_idx as int]);
                    assert(app@ =~= down_post(old(app)@));
                }
            } else {
                app.prompt_history_idx = None;
                app.prompt_input = String::new();
                proof {
                    assert(app@ =~= down_post(old(app)@));
                }
            }
        },
    }
}

/// Handle one key: editing, history browsing, scrolling, or submission.
/// The caller dispatches a submitted line and acts on the quit outcome.
pub fn handle_key(app: &mut App, key: Key) -> (r: KeyOutcome)
    requires
        prompt_wf(old(app)@),
    ensures
        final(app)@ == key_post(old(app)@, key),
        key_outcome_ok(old(app)@, key, r),
        prompt_wf(final(app)@),
{
    match key {
        Key::CtrlC => KeyOutcome::Quit,
        Key::Esc => KeyOutcome::Quit,
        Key::PageUp => {
            app.content_scroll = if app.content_scroll >= 10 {
                app.content_scroll - 10
            } else {
                0
            };
            proof {
                assert(app@ =~= page_up_post(old(app)@));
            }
            KeyOutcome::Stay
        },
        Key::PageDown => {
            app.content_scroll = if app.content_scroll <= 65525 {
                app.content_scroll + 10
            } else {
                65535
            };
            proof {
                assert(app@ =~= page_down_post(old(app)@));
            }
            KeyOutcome::Stay
        },
        Key::Enter => {
            let input = trim_str(app.prompt_input.as_str());
            if input.as_str().unicode_len() > 0 {
                let n = app.prompt_history.len();
                let dup = if n > 0 {
                    proof {
                        assert(old(app)@.prompt_history[n - 1] == app.prompt_history@[
                            n - 1
                        ]@);
                    }
                    str_eq(app.prompt_history[n - 1].as_str(), input.as_str())
                } else {
                    false
                };
                if !dup {
                    app.prompt_history.push(input.clone());
                    proof {
                        assert(app@.prompt_history =~= old(app)@.prompt_history.push(
                            trim_spec(old(app)@.prompt_input),
                        ));
                    }
                }
                app.prompt_history_idx = None;
                app.prompt_input = String::new();
                proof {
                    assert(app@ =~= enter_post(old(app)@));
                }
                KeyOutcome::Submit(input)
            } else {
                KeyOutcome::Stay
            }
        },
        Key::Backspace => {
            let _popped = pop_char(&mut app.prompt_input);
            app.prompt_history_idx = None;
            proof {
                assert(app@ =~= backspace_post(old(app)@));
            }
            KeyOutcome::Stay
        },
        Key::Up => {
            scroll_history_up(app);
            KeyOutcome::Stay
        },
        Key::Down => {
            scroll_history_down(app);
            KeyOutcome::Stay
        },
        Key::Char(c) => {
            if app.prompt_input.as_str().unicode_len() == 0 && c != '/' {
                push_char(&mut app.prompt_input, '/');
            }
            push_char(&mut app.prompt_input, c);
            app.prompt_history_idx = None;
            proof {
                assert(app@ =~= char_post(old(app)@, c));
            }
            KeyOutcome::Stay
        },
        Key::Other => KeyOutcome::Stay,
    }
}

// ---------------------------------------------------------------------------
// Laws
// ---------------------------------------------------------------------------

/// No two neighbouring history entries are equal.
pub open spec fn no_consec_dup(h: Seq<Seq<char>>) -> bool {
    forall|i: int| 1 <= i < h.len() ==> #[trigger] h[i] != h[i - 1]
}

/// Law: no key — Enter submissions included — ever leaves two equal
/// neighbouring entries in the prompt history.
pub proof fn lemma_history_no_consecutive_duplicates(pre: AppV, k: Key)
    requires
        no_consec_dup(pre.prompt_history),
    ensures
        no_consec_dup(key_post(pre, k).prompt_history),
{
    match k {
        Key::Enter => {
            let t = trim_spec(pre.prompt_input);
            let h = pre.prompt_history;
            if t.len() > 0 && !(h.len() > 0 && h.last() == t) {
                let h2 = h.push(t);
                assert forall|i: int| 1 <= i < h2.len() implies #[trigger] h2[i] != h2[i - 1] by {
                    if i < h.len() {
                        assert(h2[i] == h[i] && h2[i - 1] == h[i - 1]);
                    } else {
                        assert(h2[i] == t);
                        if h.len() > 0 {
                            assert(h2[i - 1] == h.last());
                        }
                    }
                }
            }
        },
        _ => {},
    }
}

/// `k` presses of Up from `pre`.
pub open spec fn upk(pre: AppV, k: nat) -> AppV
    decreases k,
{
    if k == 0 {
        pre
    } else {
        up_post(upk(pre, (k - 1) as nat))
    }
}

/// `k` presses of Down from `pre`.
pub open spec fn downk(pre: AppV, k: nat) -> AppV
    decreases k,
{
    if k == 0 {
        pre
    } else {
        downk(down_post(pre), (k - 1) as nat)
    }
}

proof fn lemma_upk(pre: AppV, k: nat)
    requires
        pre.prompt_history_idx is None,
        1 <= k <= pre.prompt_history.len(),
        pre.prompt_history.len() <= usize::MAX,
    ensures
        upk(pre, k) == (AppV {
            prompt_history_idx: Some((pre.prompt_history.len() - k) as usize),
            prompt_input: pre.prompt_history[pre.prompt_history.len() - k],
            ..pre
        }),
    decreases k,
{
    if k == 1 {
        assert(upk(pre, 1) == up_post(upk(pre, 0)));
        assert(up_post(pre) =~= (AppV {
            prompt_history_idx: Some((pre.prompt_history.len() - 1) as usize),
            prompt_input: pre.prompt_history[pre.prompt_history.len() - 1],
            ..pre
        }));
    } else {
        lemma_upk(pre, (k - 1) as nat);
        let s = upk(pre, (k - 1) as nat);
        assert(upk(pre, k) == up_post(s));
        assert(up_post(s) =~= (AppV {
            prompt_history_idx: Some((pre.prompt_history.len() - k) as usize),
            prompt_input: pre.prompt_history[pre.prompt_history.len() - k],
            ..pre
        }));
    }
}

proof fn lemma_downk_live(s: AppV, j: int)
    requires
        0 <= j < s.prompt_history.len(),
        s.prompt_history.len() <= usize::MAX,
        s.prompt_history_idx == Some(j as usize),
    ensures
        downk(s, (s.prompt_history.len() - j) as nat) == (AppV {
            prompt_history_idx: None,
            prompt_input: Seq::<char>::empty(),
            ..s
        }),
    decreases s.prompt_history.len() - j,
{
    let s2 = down_post(s);
    if j + 1 == s.prompt_history.len() {
        assert(downk(s, 1) == downk(s2, 0));
    } else {
        assert(s2 =~= (AppV {
            prompt_history_idx: Some((j + 1) as usize),
            prompt_input: s.prompt_history[j + 1],
            ..s
        }));
        lemma_downk_live(s2, j + 1);
        assert(downk(s, (s.prompt_history.len() - j) as nat) == downk(
            s2,
            (s2.prompt_history.len() - (j + 1)) as nat,
        ));
        assert((AppV { prompt_history_idx: None, prompt_input: Seq::<char>::empty(), ..s2 })
            =~= (AppV { prompt_history_idx: None, prompt_input: Seq::<char>::empty(), ..s }));
    }
}

/// Law: browsing is reversible. From live editing with an empty buffer,
/// pressing Up `k` times and then Down `k` times (for `k` at most the
/// history length) returns the session to exactly its starting state. When
/// the buffer held unsubmitted text, that text is not restored: leaving
/// browsing clears the buffer.
pub proof fn lemma_browse_round_trip(pre: AppV, k: nat)
    requires
        pre.prompt_history_idx is None,
        pre.prompt_input.len() == 0,
        k <= pre.prompt_history.len(),
        pre.prompt_history.len() <= usize::MAX,
    ensures
        downk(upk(pre, k), k) == pre,
{
    if k == 0 {
    } else {
        lemma_upk(pre, k);
        let s = upk(pre, k);
        lemma_downk_live(s, pre.prompt_history.len() - k);
        assert(pre.prompt_input =~= Seq::<char>::empty());
        assert((AppV { prompt_history_idx: None, prompt_input: Seq::<char>::empty(), ..s })
            =~= pre);
    }
}

} // verus!
