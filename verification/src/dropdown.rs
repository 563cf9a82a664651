//! The dropdown control and its per-frame state machine.
//!
//! One frame runs in a fixed order: the text field is rendered first; a
//! focus gain then opens the popup (and, if asked, selects the whole buffer);
//! the item rows are then walked once in source order, each shown only if
//! the popup is visible and the item passes the filter against the buffer
//! text current at that row; a click on a shown row overwrites the buffer
//! with that item's text and asks the host to close the popup.

use vstd::prelude::*;
use vstd::string::StrSliceExecFns;

use crate::filter::{is_substring, lower_of, passes, passes_filter};
use crate::identity::{derive_popup_id, popup_id_of};

verus! {

/// The events of one frame, as the host reports them to the control.
pub struct FrameInput {
    /// The text field newly gained input focus this frame.
    pub gained_focus: bool,
    /// The host's retained store holds the popup open at frame start.
    pub popup_open: bool,
    /// For each item, in order: whether its row, if shown, is clicked this
    /// frame. Aligned with the control's item list.
    pub clicks: Vec<bool>,
}

/// What one frame of the control asks of the host, beside the new buffer
/// text and the interaction result's flags.
pub struct FrameOutput {
    /// For each item, in order: whether its row is shown this frame.
    pub rendered: Vec<bool>,
    /// Request the host to open the popup (on focus gain).
    pub open_popup: bool,
    /// Request the host to close the popup (on a committed selection).
    pub close_popup: bool,
    /// A selection was committed this frame; the caller's interaction
    /// result is to be marked value-changed.
    pub value_changed: bool,
    /// Cursor range, in characters, to write back to the text field's
    /// retained editing state; written only on the focus-gain frame.
    pub select_range: Option<(usize, usize)>,
}

/// A spec-level image of one frame: the filter flag, the popup's effective
/// visibility, the item texts, the per-row clicks, and the buffer text at
/// frame start.
pub struct FrameSpec {
    pub filter_by_input: bool,
    pub open: bool,
    pub texts: Seq<Seq<char>>,
    pub clicks: Seq<bool>,
    pub buf0: Seq<char>,
}

/// The buffer text after the first `i` rows of the frame have been walked:
/// a shown row that is clicked overwrites the buffer with its item's text,
/// and later rows filter against the overwritten text.
pub open spec fn buf_at(f: FrameSpec, i: int) -> Seq<char>
    decreases i,
{
    if i <= 0 {
        f.buf0
    } else {
        let prev = buf_at(f, i - 1);
        if f.open && passes(f.filter_by_input, prev, f.texts[i - 1]) && f.clicks[i - 1] {
            f.texts[i - 1]
        } else {
            prev
        }
    }
}

/// Row `i` is shown: the popup is visible and the item passes the filter
/// against the buffer text current when the row is reached.
pub open spec fn shown_at(f: FrameSpec, i: int) -> bool {
    f.open && passes(f.filter_by_input, buf_at(f, i), f.texts[i])
}

/// A selection was committed among the first `i` rows: some shown row among
/// them was clicked.
pub open spec fn committed_by(f: FrameSpec, i: int) -> bool
    decreases i,
{
    if i <= 0 {
        false
    } else {
        committed_by(f, i - 1) || (shown_at(f, i - 1) && f.clicks[i - 1])
    }
}

/// A combo box: a single-line text field with a filterable, clickable
/// suggestion popup. Built fresh each frame from caller-owned data; the
/// control holds no state of its own between frames.
pub struct DropDownBox {
    /// Identity of the popup in the host's retained store.
    pub popup_id: u64,
    /// The suggestions, freshly supplied for this frame.
    pub items: Vec<String>,
    /// Filter the items by the buffer text (on by default).
    pub filter_by_input: bool,
    /// Select the whole buffer when the field gains focus (off by default).
    pub select_on_focus: bool,
}

impl DropDownBox {
    /// The item texts as sequences of characters.
    pub open spec fn texts(self) -> Seq<Seq<char>> {
        self.items@.map_values(|s: String| s@)
    }

    /// The spec-level image of one frame of this control, for buffer text
    /// `buf0` at frame start. The popup is effectively visible if the host
    /// held it open, or if it is opened this very frame by a focus gain.
    pub open spec fn frame_spec(self, input: FrameInput, buf0: Seq<char>) -> FrameSpec {
        FrameSpec {
            filter_by_input: self.filter_by_input,
            open: input.popup_open || input.gained_focus,
            texts: self.texts(),
            clicks: input.clicks@,
            buf0: buf0,
        }
    }

    /// Creates a new dropdown box from this frame's items and an identity
    /// seed; filtering defaults on, select-on-focus defaults off.
    pub fn from_iter(items: Vec<String>, id_source: &str) -> (r: Self)
        ensures
            r.popup_id == popup_id_of(id_source@),
            r.items == items,
            r.filter_by_input,
            !r.select_on_focus,
    {
        DropDownBox {
            popup_id: derive_popup_id(id_source),
            items,
            filter_by_input: true,
            select_on_focus: false,
        }
    }

    /// Determine whether to filter box items based on what is in the text
    /// edit already.
    pub fn filter_by_input(self, filter_by_input: bool) -> (r: Self)
        ensures
            r == (DropDownBox { filter_by_input, ..self }),
    {
        DropDownBox { filter_by_input, ..self }
    }

    /// Determine whether to select the text when the text edit gains focus.
    pub fn select_on_focus(self, select_on_focus: bool) -> (r: Self)
        ensures
            r == (DropDownBox { select_on_focus, ..self }),
    {
        DropDownBox { select_on_focus, ..self }
    }

    /// One frame of the control: decides the focus actions, walks the items
    /// once in order, and commits a clicked row's text to the buffer.
    pub fn ui(&self, buf: &mut String, input: &FrameInput) -> (out: FrameOutput)
        requires
            input.clicks@.len() == self.items@.len(),
        ensures
            ({
                let f = self.frame_spec(*input, old(buf)@);
                &&& out.open_popup == input.gained_focus
                &&& (match out.select_range {
                    Some(r) => input.gained_focus && self.select_on_focus && r.0 == 0 && r.1
                        == old(buf)@.len(),
                    None => !(input.gained_focus && self.select_on_focus),
                })
                &&& out.rendered@.len() == self.items@.len()
                &&& (forall|j: int|
                    0 <= j < self.items@.len() ==> out.rendered@[j] == shown_at(f, j))
                &&& final(buf)@ == buf_at(f, self.items@.len() as int)
                &&& out.value_changed == committed_by(f, self.items@.len() as int)
                &&& out.close_popup == out.value_changed
            }),
    {
        let ghost buf0 = buf@;
        let select_range: Option<(usize, usize)> = if input.gained_focus && self.select_on_focus {
            Some((0usize, buf.as_str().unicode_len()))
        } else {
            None
        };
        let open_popup = input.gained_focus;
        let open = input.popup_open || input.gained_focus;
        let ghost f = self.frame_spec(*input, buf0);

        let mut rendered: Vec<bool> = Vec::new();
        let mut changed = false;
        let n = self.items.len();
        let mut i: usize = 0;
        while i < n
            invariant
                n == self.items@.len(),
                i <= n,
                f == self.frame_spec(*input, buf0),
                input.clicks@.len() == n,
                f.texts.len() == n,
                f.clicks.len() == n,
                open == f.open,
                buf@ == buf_at(f, i as int),
                changed == committed_by(f, i as int),
                rendered@.len() == i,
                forall|j: int| 0 <= j < i ==> rendered@[j] == shown_at(f, j),
            decreases n - i,
        {
            assert(f.texts[i as int] == self.items@[i as int]@);
            let show: bool;
            if open {
                show = passes_filter(self.filter_by_input, buf.as_str(), self.items[i].as_str());
            } else {
                show = false;
            }
            assert(show == shown_at(f, i as int));
            if show && input.clicks[i] {
                let text = self.items[i].clone();
                *buf = text;
                changed = true;
            }
            assert(buf@ == buf_at(f, i as int + 1));
            assert(changed == committed_by(f, i as int + 1));
            rendered.push(show);
            i = i + 1;
        }
        FrameOutput { rendered, open_popup, close_popup: changed, value_changed: changed, select_range }
    }
}

/// No spurious change: if no shown row among the first `i` is clicked, the
/// buffer is untouched by the selection logic and nothing is committed.
pub proof fn lemma_no_spurious_change(f: FrameSpec, i: int)
    requires
        forall|j: int| 0 <= j < i ==> !(shown_at(f, j) && f.clicks[j]),
    ensures
        buf_at(f, i) == f.buf0,
        !committed_by(f, i),
    decreases i,
{
    if i > 0 {
        lemma_no_spurious_change(f, i - 1);
        assert(!(shown_at(f, i - 1) && f.clicks[i - 1]));
    }
}

/// Filter correctness: in a frame with the popup visible and no click, the
/// shown rows are exactly the items whose lowercased text contains the
/// lowercased buffer text, when filtering is on and the buffer is
/// non-empty; and every item otherwise.
pub proof fn lemma_filter_correctness(f: FrameSpec)
    requires
        f.open,
        f.clicks.len() == f.texts.len(),
        forall|j: int| 0 <= j < f.clicks.len() ==> !f.clicks[j],
    ensures
        forall|j: int|
            0 <= j < f.texts.len() ==> shown_at(f, j) == (if f.filter_by_input && f.buf0.len() > 0 {
                is_substring(lower_of(f.buf0), lower_of(f.texts[j]))
            } else {
                true
            }),
{
    assert forall|j: int| 0 <= j < f.texts.len() implies shown_at(f, j) == (if f.filter_by_input
        && f.buf0.len() > 0 {
        is_substring(lower_of(f.buf0), lower_of(f.texts[j]))
    } else {
        true
    }) by {
        lemma_no_spurious_change(f, j);
    }
}

/// Selection commit: if row `k` is shown and clicked, and no later row
/// before `n` is both shown and clicked, then after `n` rows the buffer is
/// exactly item `k`'s text and a commit is reported.
pub proof fn lemma_selection_commit(f: FrameSpec, k: int, n: int)
    requires
        0 <= k < n <= f.texts.len(),
        shown_at(f, k),
        f.clicks[k],
        forall|j: int| k < j < n ==> !(shown_at(f, j) && f.clicks[j]),
    ensures
        buf_at(f, n) == f.texts[k],
        committed_by(f, n),
    decreases n,
{
    if n == k + 1 {
        assert(buf_at(f, k + 1) == f.texts[k]);
    } else {
        lemma_selection_commit(f, k, n - 1);
        assert(!(shown_at(f, n - 1) && f.clicks[n - 1]));
    }
}

} // verus!
