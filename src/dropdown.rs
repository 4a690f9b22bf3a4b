use vstd::prelude::*;

verus! {

/// A list of options of which the caller keeps one selected, shown in a popup that opens
/// under a trigger button. The caller keeps the selection and the open flag between frames.
#[derive(Clone, Debug)]
pub struct Dropdown {
    pub options: Vec<String>,
}

/// What happened to a dropdown in one frame.
#[derive(Clone, Copy, Debug, PartialEq, Eq, Structural)]
pub struct DropdownEvents {
    /// The trigger button was clicked.
    pub trigger_clicked: bool,
    /// The option at this index of the popup was clicked.
    pub option_clicked: Option<usize>,
    /// Escape was pressed.
    pub escape_pressed: bool,
    /// The pointer clicked outside the popup.
    pub clicked_elsewhere: bool,
}

/// The state of a dropdown after one frame.
#[derive(Clone, Copy, Debug, PartialEq, Eq, Structural)]
pub struct DropdownOutcome {
    /// Whether the popup is open.
    pub open: bool,
    /// Whether the selection was committed in this frame.
    pub changed: bool,
}

/// The selection a dropdown starts from: the first option when nothing is selected yet.
pub open spec fn initial_selection(options: Seq<String>, selected: String) -> String {
    if selected@.len() == 0 && options.len() > 0 {
        options[0]
    } else {
        selected
    }
}

/// Whether the popup is shown in a frame: a click on the trigger toggles it.
pub open spec fn popup_shown(open: bool, trigger_clicked: bool) -> bool {
    open != trigger_clicked
}

/// The option that a frame commits, if any: one clicked in a popup that is open after the
/// trigger was handled.
pub open spec fn chosen_option(options: Seq<String>, open: bool, e: DropdownEvents) -> Option<
    usize,
> {
    let showing = popup_shown(open, e.trigger_clicked);
    match e.option_clicked {
        Some(i) => if showing && i < options.len() {
            Some(i)
        } else {
            None
        },
        None => None,
    }
}

/// The popup's state after a frame: the trigger toggles it; committing an option, Escape or a
/// click elsewhere (when the trigger was not clicked) closes it.
pub open spec fn frame_outcome(options: Seq<String>, open: bool, e: DropdownEvents) -> DropdownOutcome {
    let showing = popup_shown(open, e.trigger_clicked);
    let chosen = chosen_option(options, open, e);
    DropdownOutcome {
        open: showing && chosen is None && !(!e.trigger_clicked && (e.escape_pressed
            || e.clicked_elsewhere)),
        changed: chosen is Some,
    }
}

/// The selection after a frame.
pub open spec fn frame_selection(options: Seq<String>, open: bool, e: DropdownEvents, selected: String) -> String {
    match chosen_option(options, open, e) {
        Some(i) => options[i as int],
        None => selected,
    }
}

/// A frame in which nothing happens.
pub open spec fn quiet_frame() -> DropdownEvents {
    DropdownEvents {
        trigger_clicked: false,
        option_clicked: None,
        escape_pressed: false,
        clicked_elsewhere: false,
    }
}

impl Dropdown {
    /// A dropdown over `options`; selects the first option when nothing is selected yet.
    pub fn new(options: Vec<String>, selected: &mut String) -> (d: Dropdown)
        ensures
            d.options@ == options@,
            *final(selected) == initial_selection(options@, *old(selected)),
    {
        if selected.as_str().is_empty() && options.len() > 0 {
            *selected = options[0].clone();
        }
        Dropdown { options }
    }

    /// Whether the popup is shown in a frame, given whether it was open before it and whether
    /// the trigger was clicked.
    pub fn popup_shown(open: bool, trigger_clicked: bool) -> (shown: bool)
        ensures
            shown == popup_shown(open, trigger_clicked),
    {
        open != trigger_clicked
    }

    /// Handles one frame, given whether the popup was open before it, and commits a clicked
    /// option to `selected`.
    pub fn frame(&self, open: bool, events: DropdownEvents, selected: &mut String) -> (o:
        DropdownOutcome)
        ensures
            o == frame_outcome(self.options@, open, events),
            *final(selected) == frame_selection(self.options@, open, events, *old(selected)),
    {
        if !Dropdown::popup_shown(open, events.trigger_clicked) {
            return DropdownOutcome { open: false, changed: false };
        }
        let mut now_open = true;
        let mut changed = false;
        if let Some(i) = events.option_clicked {
            if i < self.options.len() {
                *selected = self.options[i].clone();
                changed = true;
                now_open = false;
            }
        }
        if !events.trigger_clicked && (events.escape_pressed || events.clicked_elsewhere) {
            now_open = false;
        }
        DropdownOutcome { open: now_open, changed }
    }

    /// Whether the option at `index` is the selected one, to be shown highlighted.
    pub fn is_selected(&self, index: usize, selected: &String) -> (s: bool)
        requires
            index < self.options@.len(),
        ensures
            s == (self.options@[index as int]@ == selected@),
    {
        self.options[index] == *selected
    }
}

/// Once something is selected the first option is not imposed again: starting a dropdown
/// twice selects what starting it once does.
pub proof fn lemma_initial_selection_is_kept(options: Seq<String>, selected: String)
    ensures
        initial_selection(options, initial_selection(options, selected)) == initial_selection(
            options,
            selected,
        ),
        selected@.len() > 0 ==> initial_selection(options, selected) == selected,
{
}

/// Clicking an option of an open popup commits it and closes the popup, and the next frame
/// without events shows it closed with the selection kept.
pub proof fn lemma_choosing_closes(options: Seq<String>, selected: String, i: usize)
    requires
        i < options.len(),
    ensures
        ({
            let e = DropdownEvents { option_clicked: Some(i), ..quiet_frame() };
            let o = frame_outcome(options, true, e);
            let s = frame_selection(options, true, e, selected);
            &&& s == options[i as int]
            &&& !o.open
            &&& o.changed
            &&& !frame_outcome(options, o.open, quiet_frame()).open
            &&& frame_selection(options, o.open, quiet_frame(), s) == s
        }),
{
}

} // verus!
