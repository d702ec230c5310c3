//! Event multiplexer: the prompt's state machine.
//!
//! The interactive loop owns one [`PromptState`] and feeds it one event at a
//! time — a key, the debounce timer elapsing, an autocomplete response, or a
//! loading-animation tick.  [`PromptState::step`] performs the transition and
//! hands back what the caller must do: finish with a selection, issue a
//! request, drop a superseded request, or redraw.  The caller does the
//! waiting and the I/O; every decision is made here.

use crate::debounce::DebounceController;
use crate::selection::{index_valid, SelectionState};
use crate::text_buffer::{content_hash, trimmed, UTF32String};
use vstd::prelude::*;

verus! {

/// Number of frames of the loading animation.
pub const FRAME_COUNT: usize = 14;

/// A keyboard event, already decoded by the terminal layer.
#[derive(Clone, Copy, PartialEq, Eq, Structural)]
pub enum KeyInput {
    Enter,
    Backspace,
    CtrlC,
    Char(char),
    Left,
    Right,
    Up,
    Down,
    Other,
}

/// One event from the fan-in wait over the prompt's event sources.
pub enum Event {
    /// A key arrived; `now` is the current time in the same unit as the
    /// debounce delay.
    Key { key: KeyInput, now: u64 },
    /// The armed debounce timer elapsed at `now`.
    DebounceFired { now: u64 },
    /// The outstanding autocomplete call finished: its candidate list, or
    /// `None` if the call failed.
    Response { token: u64, result: Option<Vec<String>> },
    /// The loading-animation timer ticked while a request is outstanding.
    LoadingTick,
}

/// An autocomplete request the caller must start.
pub struct AcRequest {
    pub query: String,
    pub token: u64,
}

/// What the caller must do after a non-final step.
pub struct Directive {
    /// Start this request, superseding any outstanding one.
    pub issue: Option<AcRequest>,
    /// Drop the outstanding request's task: its token went stale.
    pub cancel: bool,
    /// Redraw the prompt line.
    pub render_prompt: bool,
    /// Redraw the candidate dropdown.
    pub render_popup: bool,
    /// Redraw the loading indicator.
    pub render_spinner: bool,
}

/// Result of one step: keep looping, or leave with the confirmed candidate
/// (`None` for an abort or an empty candidate list).
pub enum StepOutcome {
    Continue(Directive),
    Finished(Option<String>),
}

/// The directive that asks nothing of the caller.
pub open spec fn quiet_directive() -> Directive {
    Directive {
        issue: None,
        cancel: false,
        render_prompt: false,
        render_popup: false,
        render_spinner: false,
    }
}

/// Shared state of the interactive prompt, owned and mutated only by the
/// multiplexer loop.
pub struct PromptState {
    /// The query being edited.
    pub buffer: UTF32String,
    /// Cursor position in the buffer, a codepoint index in `[0, len]`.
    pub cursor: usize,
    /// Highlighted row of the dropdown.
    pub selection: SelectionState,
    /// Candidate list of the last accepted autocomplete response, in
    /// server order; replaced atomically, never edited in place.
    pub candidates: Vec<String>,
    /// Debounce and request-generation state.
    pub debounce: DebounceController,
    /// Current frame of the loading animation.
    pub loading_frame: usize,
    /// Maximum number of dropdown rows, at least 1.
    pub popup_capacity: usize,
}

/// Mathematical image of a [`PromptState`].
pub ghost struct PromptModel {
    pub buffer: Seq<char>,
    pub cursor: int,
    pub index: int,
    pub candidates: Seq<Seq<char>>,
    pub debounce: DebounceController,
    pub loading_frame: int,
    pub popup_capacity: int,
}

/// Well-formedness of the prompt state: the cursor stays within
/// `[0, buffer.len()]`, the selection stays within the visible part of the
/// candidate list, the debounce controller's fingerprint is the current
/// buffer's, and its live token was issued earlier.
pub open spec fn model_wf(m: PromptModel) -> bool {
    &&& 0 <= m.cursor <= m.buffer.len()
    &&& m.popup_capacity >= 1
    &&& index_valid(m.index, m.candidates.len() as int, m.popup_capacity)
    &&& m.debounce.wf()
    &&& m.debounce.last_hash == content_hash(m.buffer)
    &&& 0 <= m.loading_frame < FRAME_COUNT
}

/// Effect of a key on buffer, cursor and selection; the debounce effect
/// comes after, in [`edit_model`].
pub open spec fn apply_key(m: PromptModel, key: KeyInput) -> PromptModel {
    match key {
        KeyInput::Backspace => if m.cursor > 0 {
            PromptModel { buffer: m.buffer.remove(m.cursor - 1), cursor: m.cursor - 1, ..m }
        } else {
            m
        },
        KeyInput::Char(c) => PromptModel {
            buffer: m.buffer.insert(m.cursor, c),
            cursor: m.cursor + 1,
            ..m
        },
        KeyInput::Right => if m.cursor < m.buffer.len() {
            PromptModel { cursor: m.cursor + 1, ..m }
        } else {
            m
        },
        KeyInput::Left => if m.cursor > 0 {
            PromptModel { cursor: m.cursor - 1, ..m }
        } else {
            m
        },
        KeyInput::Up => if m.index > 0 {
            PromptModel { index: m.index - 1, ..m }
        } else {
            m
        },
        KeyInput::Down => if m.index + 1 < m.candidates.len() && m.index + 1 < m.popup_capacity {
            PromptModel { index: m.index + 1, ..m }
        } else {
            m
        },
        KeyInput::Enter => m,
        KeyInput::CtrlC => m,
        KeyInput::Other => m,
    }
}

/// A non-terminal key event: the key's effect, then the debounce controller
/// observes the new buffer fingerprint at time `now`.
pub open spec fn edit_model(m: PromptModel, key: KeyInput, now: u64) -> PromptModel {
    let e = apply_key(m, key);
    PromptModel { debounce: m.debounce.observe_spec(now, content_hash(e.buffer)), ..e }
}

/// The debounce timer fired: a request token is issued unless the trimmed
/// buffer is empty — an empty buffer never issues a request.
pub open spec fn fire_model(m: PromptModel) -> (PromptModel, Option<u64>) {
    let blank = trimmed(m.buffer).len() == 0;
    let r = m.debounce.fire_spec(blank);
    (PromptModel { debounce: r.0, ..m }, r.1)
}

/// Clamp-only selection policy: a list replacement keeps the index unless
/// it became invalid, in which case it resets to 0.
pub open spec fn clamp_model(index: int, list_len: int, capacity: int) -> int {
    if index < list_len && index < capacity {
        index
    } else {
        0
    }
}

/// Selection law: a replacement of the candidate list leaves a selection
/// that is inside the visible part of the new list, and keeps the user's
/// position whenever it is still valid.
pub proof fn lemma_clamp_policy(index: int, list_len: int, capacity: int)
    requires
        0 <= index,
        capacity >= 1,
    ensures
        index_valid(clamp_model(index, list_len, capacity), list_len, capacity),
        index_valid(index, list_len, capacity) && list_len > 0 ==> clamp_model(
            index,
            list_len,
            capacity,
        ) == index,
{
}

/// An autocomplete response arrived.  Only the live token is accepted: a
/// stale response changes nothing.  A failed call leaves the previous
/// candidate list untouched.
pub open spec fn response_model(
    m: PromptModel,
    token: u64,
    result: Option<Seq<Seq<char>>>,
) -> PromptModel {
    let r = m.debounce.accept_spec(token);
    if r.1 {
        match result {
            Some(list) => PromptModel {
                debounce: r.0,
                candidates: list,
                index: clamp_model(m.index, list.len() as int, m.popup_capacity),
                ..m
            },
            None => PromptModel { debounce: r.0, ..m },
        }
    } else {
        m
    }
}

/// The loading animation advanced one frame; nothing else moves.
pub open spec fn tick_model(m: PromptModel) -> PromptModel {
    PromptModel { loading_frame: (m.loading_frame + 1) % (FRAME_COUNT as int), ..m }
}

/// The state in which the interactive loop starts.
pub open spec fn init_model(popup_capacity: int, delay: u64) -> PromptModel {
    PromptModel {
        buffer: Seq::empty(),
        cursor: 0,
        index: 0,
        candidates: Seq::empty(),
        debounce: DebounceController {
            delay,
            deadline: None,
            last_hash: 0u32,
            next_gen: 0u64,
            live: None,
        },
        loading_frame: 0,
        popup_capacity,
    }
}

/// When each event may be delivered: a key's timestamp leaves room for the
/// debounce deadline, the debounce timer fires only while armed and only
/// once its deadline passed, and the loading tick comes only while a
/// request is outstanding.
pub open spec fn event_allowed(pre: PromptState, event: Event) -> bool {
    match event {
        Event::Key { key, now } => {
            &&& now + pre.debounce.delay <= u64::MAX
            &&& (key matches KeyInput::Char(_) ==> pre.buffer@.len() < usize::MAX)
        },
        Event::DebounceFired { now } => {
            &&& pre.debounce.armed()
            &&& pre.debounce.can_fire(now)
            &&& pre.debounce.next_gen < u64::MAX
        },
        Event::Response { token: _, result: _ } => true,
        Event::LoadingTick => pre.debounce.live is Some,
    }
}

/// Full description of one step: how the state moved and what the outcome
/// asks of the caller.
pub open spec fn step_ensures(
    pre: PromptState,
    event: Event,
    post: PromptState,
    out: StepOutcome,
) -> bool {
    let m0 = pre.model();
    match event {
        Event::Key { key, now } => match key {
            KeyInput::Enter => {
                &&& post == pre
                &&& (out matches StepOutcome::Finished(r) && (if m0.candidates.len() > 0 {
                    r matches Some(w) && w@ == m0.candidates[m0.index]
                } else {
                    r is None
                }))
            },
            KeyInput::CtrlC => {
                &&& post == pre
                &&& out == StepOutcome::Finished(None::<String>)
            },
            KeyInput::Other => {
                &&& post == pre
                &&& (out matches StepOutcome::Continue(d) && d == quiet_directive())
            },
            _ => {
                &&& post.model() == edit_model(m0, key, now)
                &&& (out matches StepOutcome::Continue(d) && {
                    &&& d.issue is None
                    &&& d.cancel == (content_hash(apply_key(m0, key).buffer)
                        != m0.debounce.last_hash)
                    &&& d.render_prompt == true
                    &&& d.render_popup == (key == KeyInput::Up || (key == KeyInput::Down
                        && apply_key(m0, key).index != m0.index))
                    &&& d.render_spinner == false
                })
            },
        },
        Event::DebounceFired { now: _ } => {
            let r = fire_model(m0);
            &&& post.model() == r.0
            &&& (out matches StepOutcome::Continue(d) && {
                &&& (match r.1 {
                    Some(tok) => d.issue matches Some(req) && req.token == tok && req.query@
                        == m0.buffer,
                    None => d.issue is None,
                })
                &&& trimmed(m0.buffer).len() == 0 ==> d.issue is None
                &&& d.cancel == false
                &&& d.render_prompt == false
                &&& d.render_popup == false
                &&& d.render_spinner == false
            })
        },
        Event::Response { token, result } => {
            &&& post.model() == response_model(m0, token, result.deep_view())
            &&& (out matches StepOutcome::Continue(d) && {
                &&& d.issue is None
                &&& d.cancel == false
                &&& d.render_prompt == false
                &&& d.render_popup == (m0.debounce.accept_spec(token).1 && result is Some)
                &&& d.render_spinner == false
            })
        },
        Event::LoadingTick => {
            &&& post.model() == tick_model(m0)
            &&& (out matches StepOutcome::Continue(d) && {
                &&& d.issue is None
                &&& d.cancel == false
                &&& d.render_prompt == false
                &&& d.render_popup == false
                &&& d.render_spinner == true
            })
        },
    }
}

/// Editing law: whatever key arrives and whenever it arrives, an edit step
/// keeps the prompt well-formed — in particular the cursor stays within
/// `[0, buffer.len()]` and the selection stays within the visible part of
/// the candidate list.  Together with [`PromptState::step`]'s postcondition
/// this extends to every sequence of events.
pub proof fn lemma_edit_preserves_wf(m: PromptModel, key: KeyInput, now: u64)
    requires
        model_wf(m),
    ensures
        model_wf(edit_model(m, key, now)),
        0 <= edit_model(m, key, now).cursor <= edit_model(m, key, now).buffer.len(),
{
}

/// Staleness law: a request that was superseded before its response arrived
/// never alters the candidate list.  With request `a` outstanding, an edit
/// that changes the fingerprint invalidates it; from then on — and equally
/// after the debounce timer issues the superseding request — the response
/// carrying `a` changes nothing, and the token issued next is never `a`.
pub proof fn lemma_stale_response_discarded(
    m: PromptModel,
    key: KeyInput,
    now: u64,
    a: u64,
    result: Option<Seq<Seq<char>>>,
)
    requires
        model_wf(m),
        m.debounce.live == Some(a),
        content_hash(apply_key(m, key).buffer) != m.debounce.last_hash,
    ensures
        ({
            let m1 = edit_model(m, key, now);
            let r = fire_model(m1);
            &&& m1.debounce.live is None
            &&& response_model(m1, a, result) == m1
            &&& r.1 is Some ==> r.1 != Some(a)
            &&& response_model(r.0, a, result) == r.0
        }),
{
}

impl PromptState {
    /// Mathematical image of this state.
    pub open spec fn model(self) -> PromptModel {
        PromptModel {
            buffer: self.buffer@,
            cursor: self.cursor as int,
            index: self.selection.index as int,
            candidates: self.candidates.deep_view(),
            debounce: self.debounce,
            loading_frame: self.loading_frame as int,
            popup_capacity: self.popup_capacity as int,
        }
    }

    /// See [`model_wf`].
    pub open spec fn wf(self) -> bool {
        model_wf(self.model())
    }

    /// Fresh prompt state: empty buffer, no candidates, nothing armed.
    pub fn new(popup_capacity: usize, delay: u64) -> (r: PromptState)
        requires
            popup_capacity >= 1,
        ensures
            r.wf(),
            r.model() == init_model(popup_capacity as int, delay),
    {
        let r = PromptState {
            buffer: UTF32String::new(),
            cursor: 0,
            selection: SelectionState::new(),
            candidates: Vec::new(),
            debounce: DebounceController::new(delay),
            loading_frame: 0,
            popup_capacity,
        };
        proof {
            assert(r.candidates.deep_view() =~= Seq::<Seq<char>>::empty());
            assert(r.model() == init_model(popup_capacity as int, delay));
        }
        r
    }

    /// Services exactly one event and returns what the caller must do.
    pub fn step(&mut self, event: Event) -> (out: StepOutcome)
        requires
            old(self).wf(),
            event_allowed(*old(self), event),
        ensures
            final(self).wf(),
            step_ensures(*old(self), event, *final(self), out),
    {
        match event {
            Event::Key { key, now } => self.step_key(key, now),
            Event::DebounceFired { now: _ } => {
                let t = self.buffer.trim();
                let blank = t.len() == 0;
                let issued = self.debounce.fire(blank);
                let issue = match issued {
                    Some(tok) => Some(
                        AcRequest { query: self.buffer.to_string_clone(), token: tok },
                    ),
                    None => None,
                };
                StepOutcome::Continue(
                    Directive {
                        issue,
                        cancel: false,
                        render_prompt: false,
                        render_popup: false,
                        render_spinner: false,
                    },
                )
            },
            Event::Response { token, result } => {
                let fresh = self.debounce.accept(token);
                let mut render_popup = false;
                match result {
                    Some(list) => {
                        if fresh {
                            self.candidates = list;
                            self.selection.clamp(self.candidates.len(), self.popup_capacity);
                            render_popup = true;
                        }
                    },
                    None => {},
                }
                StepOutcome::Continue(
                    Directive {
                        issue: None,
                        cancel: false,
                        render_prompt: false,
                        render_popup,
                        render_spinner: false,
                    },
                )
            },
            Event::LoadingTick => {
                self.loading_frame = (self.loading_frame + 1) % FRAME_COUNT;
                StepOutcome::Continue(
                    Directive {
                        issue: None,
                        cancel: false,
                        render_prompt: false,
                        render_popup: false,
                        render_spinner: true,
                    },
                )
            },
        }
    }

    /// Key dispatch: Enter confirms the highlighted candidate, an interrupt
    /// aborts, every other key edits or navigates and then lets the
    /// debounce controller observe the new fingerprint.
    fn step_key(&mut self, key: KeyInput, now: u64) -> (out: StepOutcome)
        requires
            old(self).wf(),
            event_allowed(*old(self), Event::Key { key, now }),
        ensures
            final(self).wf(),
            step_ensures(*old(self), Event::Key { key, now }, *final(self), out),
    {
        let mut render_popup = false;
        match key {
            KeyInput::Enter => {
                let r = if self.selection.index < self.candidates.len() {
                    Some(self.candidates[self.selection.index].clone())
                } else {
                    None
                };
                return StepOutcome::Finished(r);
            },
            KeyInput::CtrlC => {
                return StepOutcome::Finished(None);
            },
            KeyInput::Other => {
                return StepOutcome::Continue(
                    Directive {
                        issue: None,
                        cancel: false,
                        render_prompt: false,
                        render_popup: false,
                        render_spinner: false,
                    },
                );
            },
            KeyInput::Backspace => {
                if self.cursor > 0 {
                    self.cursor = self.cursor - 1;
                    self.buffer.remove(self.cursor);
                }
            },
            KeyInput::Char(c) => {
                self.buffer.insert(self.cursor, c);
                self.cursor = self.cursor + 1;
            },
            KeyInput::Right => {
                if self.cursor < self.buffer.len() {
                    self.cursor = self.cursor + 1;
                }
            },
            KeyInput::Left => {
                if self.cursor > 0 {
                    self.cursor = self.cursor - 1;
                }
            },
            KeyInput::Up => {
                self.selection.move_up();
                render_popup = true;
            },
            KeyInput::Down => {
                let moved = self.selection.move_down(
                    self.candidates.len(),
                    self.popup_capacity,
                );
                render_popup = moved;
            },
        }
        let h = self.buffer.fingerprint();
        let changed = self.debounce.on_edit(now, h);
        StepOutcome::Continue(
            Directive {
                issue: None,
                cancel: changed,
                render_prompt: true,
                render_popup,
                render_spinner: false,
            },
        )
    }
}

} // verus!
