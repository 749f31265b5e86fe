//! UI state and input handling: a fixed list of tab labels, the selected
//! tab index (wrapping on Left/Right) and a scroll offset (floored at zero
//! on Up, saturating on Down).

use vstd::prelude::*;
use vstd::string::StringExecFns;

verus! {

/// The key codes this core reacts to. Enter and Esc are reserved extension
/// points and are deliberate no-ops, as is anything else the host delivers.
#[derive(Clone, Copy, Debug, PartialEq, Eq, Structural)]
pub enum KeyCode {
    Left,
    Right,
    Up,
    Down,
    Enter,
    Esc,
    Other,
}

/// A key press delivered by the host; only the code matters to this core.
#[derive(Clone, Copy, Debug, PartialEq, Eq, Structural)]
pub struct KeyEvent {
    pub code: KeyCode,
}

/// The tab labels of a state, as character sequences.
pub open spec fn labels_view(v: Seq<String>) -> Seq<Seq<char>> {
    v.map_values(|t: String| t@)
}

/// Mathematical model of the UI state: tab labels as character sequences,
/// the selected index and the scroll offset as unbounded integers.
#[verifier::ext_equal]
pub struct UiModel {
    pub tabs: Seq<Seq<char>>,
    pub current_tab: int,
    pub scroll: int,
}

/// The state invariant: at least one tab, the selected index in range,
/// and the scroll offset within what a cell coordinate can represent.
pub open spec fn model_inv(s: UiModel) -> bool {
    &&& s.tabs.len() >= 1
    &&& 0 <= s.current_tab < s.tabs.len()
    &&& 0 <= s.scroll <= u16::MAX
}

/// One input event applied to the model: Left and Right move the selected
/// tab with wraparound, Up lowers the scroll offset but never below zero,
/// Down raises it but never past the representable maximum; every other
/// key leaves the state unchanged.
pub open spec fn step(s: UiModel, code: KeyCode) -> UiModel {
    match code {
        KeyCode::Left => UiModel {
            current_tab: if s.current_tab == 0 {
                s.tabs.len() - 1
            } else {
                s.current_tab - 1
            },
            ..s
        },
        KeyCode::Right => UiModel {
            current_tab: if s.current_tab == s.tabs.len() - 1 {
                0
            } else {
                s.current_tab + 1
            },
            ..s
        },
        KeyCode::Up => UiModel {
            scroll: if s.scroll > 0 {
                s.scroll - 1
            } else {
                0
            },
            ..s
        },
        KeyCode::Down => UiModel {
            scroll: if s.scroll < u16::MAX {
                s.scroll + 1
            } else {
                s.scroll
            },
            ..s
        },
        _ => s,
    }
}

/// A whole event sequence applied to the model, first event first.
pub open spec fn run_events(s: UiModel, evs: Seq<KeyCode>) -> UiModel
    decreases evs.len(),
{
    if evs.len() == 0 {
        s
    } else {
        run_events(step(s, evs[0]), evs.drop_first())
    }
}

/// The UI state: tab labels fixed at construction, the selected tab index
/// and the scroll offset.
pub struct App {
    pub tabs: Vec<String>,
    pub current_tab: usize,
    pub scroll: u16,
}

impl View for App {
    type V = UiModel;

    open spec fn view(&self) -> UiModel {
        UiModel {
            tabs: labels_view(self.tabs@),
            current_tab: self.current_tab as int,
            scroll: self.scroll as int,
        }
    }
}

/// The labels of the five portfolio sections, in display order.
pub open spec fn default_tab_labels() -> Seq<Seq<char>> {
    seq!["ABOUT ME"@, "CONTRIBUTIONS"@, "TECH BLOG"@, "BOOKS REVIEW"@, "SOCIAL"@]
}

impl App {
    /// Well-formedness: the model invariant holds of the state.
    pub open spec fn wf(&self) -> bool {
        model_inv(self@)
    }

    /// Apply one key event to the state in place. The new state is exactly
    /// one `step` of the model; unrecognized keys change nothing.
    pub fn handle_event(&mut self, ev: KeyEvent)
        requires
            old(self).wf(),
        ensures
            final(self).wf(),
            final(self)@ == step(old(self)@, ev.code),
    {
        match ev.code {
            KeyCode::Left => {
                self.current_tab = if self.current_tab == 0 {
                    self.tabs.len() - 1
                } else {
                    self.current_tab - 1
                };
            },
            KeyCode::Right => {
                self.current_tab = if self.current_tab == self.tabs.len() - 1 {
                    0
                } else {
                    self.current_tab + 1
                };
            },
            KeyCode::Up => {
                if self.scroll > 0 {
                    self.scroll = self.scroll - 1;
                }
            },
            KeyCode::Down => {
                if self.scroll < u16::MAX {
                    self.scroll = self.scroll + 1;
                }
            },
            _ => {},
        }
        proof {
            assert(self@ =~= step(old(self)@, ev.code));
        }
    }
}

impl Default for App {
    /// The startup state: the five portfolio sections, the first tab
    /// selected, no scroll.
    fn default() -> (app: App)
        ensures
            app.wf(),
            app@.tabs == default_tab_labels(),
            app@.current_tab == 0,
            app@.scroll == 0,
    {
        let mut tabs: Vec<String> = Vec::new();
        tabs.push(String::from_str("ABOUT ME"));
        tabs.push(String::from_str("CONTRIBUTIONS"));
        tabs.push(String::from_str("TECH BLOG"));
        tabs.push(String::from_str("BOOKS REVIEW"));
        tabs.push(String::from_str("SOCIAL"));
        let app = App { tabs, current_tab: 0, scroll: 0 };
        proof {
            assert(app@.tabs =~= default_tab_labels());
        }
        app
    }
}

/// Every single event keeps the state invariant.
pub proof fn lemma_step_preserves_inv(s: UiModel, code: KeyCode)
    requires
        model_inv(s),
    ensures
        model_inv(step(s, code)),
{
}

/// Any event sequence keeps the state invariant: in particular the selected
/// tab index stays within `[0, tabs.len() - 1]` at every step.
pub proof fn lemma_run_events_preserve_inv(s: UiModel, evs: Seq<KeyCode>)
    requires
        model_inv(s),
    ensures
        model_inv(run_events(s, evs)),
    decreases evs.len(),
{
    if evs.len() > 0 {
        lemma_step_preserves_inv(s, evs[0]);
        lemma_run_events_preserve_inv(step(s, evs[0]), evs.drop_first());
    }
}

/// Tab wraparound: Left from the first tab lands on the last, Right from
/// the last lands on the first.
pub proof fn lemma_tab_wraparound(s: UiModel)
    requires
        model_inv(s),
    ensures
        s.current_tab == 0 ==> step(s, KeyCode::Left).current_tab == s.tabs.len() - 1,
        s.current_tab == s.tabs.len() - 1 ==> step(s, KeyCode::Right).current_tab == 0,
{
}

/// Scroll floor: from offset zero, any sequence of Up events leaves the
/// offset at zero.
pub proof fn lemma_up_events_keep_floor(s: UiModel, evs: Seq<KeyCode>)
    requires
        model_inv(s),
        s.scroll == 0,
        forall|i: int| 0 <= i < evs.len() ==> evs[i] == KeyCode::Up,
    ensures
        run_events(s, evs).scroll == 0,
    decreases evs.len(),
{
    if evs.len() > 0 {
        lemma_step_preserves_inv(s, evs[0]);
        lemma_up_events_keep_floor(step(s, evs[0]), evs.drop_first());
    }
}

/// Scroll counting: k Down events raise the offset by exactly k, as long as
/// the result stays representable.
pub proof fn lemma_down_events_count(s: UiModel, evs: Seq<KeyCode>)
    requires
        model_inv(s),
        forall|i: int| 0 <= i < evs.len() ==> evs[i] == KeyCode::Down,
        s.scroll + evs.len() <= u16::MAX,
    ensures
        run_events(s, evs).scroll == s.scroll + evs.len(),
    decreases evs.len(),
{
    if evs.len() > 0 {
        lemma_step_preserves_inv(s, evs[0]);
        lemma_down_events_count(step(s, evs[0]), evs.drop_first());
    }
}

/// One Up event from a positive offset lowers it by exactly one.
pub proof fn lemma_up_decrements(s: UiModel)
    requires
        model_inv(s),
        s.scroll > 0,
    ensures
        step(s, KeyCode::Up).scroll == s.scroll - 1,
{
}

} // verus!
