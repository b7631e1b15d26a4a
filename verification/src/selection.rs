//! What the window shows: the selected observer and RGB space, whether the
//! tristimulus values are normalized, and how a choice in a menu reaches
//! the diagram.
//!
//! The window keeps its own copy of the selection, the diagram keeps
//! another. A menu reports the value it now holds and whether the user
//! changed it; only a change is passed on to the diagram.

use vstd::prelude::*;
use crate::color_choice::{
    ObserverChoice, ColorSpaceChoice, observer_label, colorspace_label, observer_name_text,
    colorspace_name_text,
};

verus! {

/// The observer and RGB space the diagram is drawn for.
#[derive(Clone, Copy, Debug, PartialEq, Eq, Hash, Structural)]
pub struct DiagramSelection {
    pub observer: ObserverChoice,
    pub colorspace: ColorSpaceChoice,
}

impl DiagramSelection {
    /// A selection of `observer` and `colorspace`.
    pub fn new(observer: ObserverChoice, colorspace: ColorSpaceChoice) -> (selection: Self)
        ensures
            selection == (DiagramSelection { observer, colorspace }),
    {
        DiagramSelection { observer, colorspace }
    }

    /// Draws the diagram for `observer` from now on.
    pub fn set_observer(&mut self, observer: ObserverChoice)
        ensures
            *final(self) == (DiagramSelection { observer, ..*old(self) }),
    {
        self.observer = observer;
    }

    /// Draws the diagram for `colorspace` from now on.
    pub fn set_colorspace(&mut self, colorspace: ColorSpaceChoice)
        ensures
            *final(self) == (DiagramSelection { colorspace, ..*old(self) }),
    {
        self.colorspace = colorspace;
    }
}

/// The choices made in the window.
#[derive(Clone, Copy, Debug, PartialEq, Eq, Structural)]
pub struct WindowState {
    pub observer: ObserverChoice,
    pub colorspace: ColorSpaceChoice,
    /// Whether the tristimulus values are scaled to an illuminance of 100.
    pub normalize_illuminance: bool,
}

/// The window and the diagram agree on the observer and the RGB space.
pub open spec fn in_sync(window: WindowState, diagram: DiagramSelection) -> bool {
    window.observer == diagram.observer && window.colorspace == diagram.colorspace
}

/// The window after its observer menu reported `selected`, and the observer
/// to pass on to the diagram: `selected` when the menu reported a change,
/// nothing otherwise.
pub open spec fn after_observer_menu(window: WindowState, selected: ObserverChoice, changed: bool) -> (
    WindowState,
    Option<ObserverChoice>,
) {
    (WindowState { observer: selected, ..window }, if changed { Some(selected) } else { None })
}

/// The window after its RGB space menu reported `selected`, and the RGB
/// space to pass on to the diagram.
pub open spec fn after_colorspace_menu(
    window: WindowState,
    selected: ColorSpaceChoice,
    changed: bool,
) -> (WindowState, Option<ColorSpaceChoice>) {
    (WindowState { colorspace: selected, ..window }, if changed { Some(selected) } else { None })
}

impl WindowState {
    /// The window as it opens: the CIE 1931 observer, sRGB, and normalized
    /// tristimulus values.
    pub fn new() -> (window: Self)
        ensures
            window.observer == ObserverChoice::Cie1931,
            window.colorspace == ColorSpaceChoice::Srgb,
            window.normalize_illuminance,
    {
        WindowState {
            observer: ObserverChoice::Cie1931,
            colorspace: ColorSpaceChoice::Srgb,
            normalize_illuminance: true,
        }
    }

    /// The selection a diagram drawn for this window starts with.
    pub fn diagram_selection(&self) -> (selection: DiagramSelection)
        ensures
            in_sync(*self, selection),
    {
        DiagramSelection { observer: self.observer, colorspace: self.colorspace }
    }

    /// Takes in what the observer menu reported: the observer it now holds
    /// and whether the user changed it. Returns the observer the diagram
    /// must switch to, if any.
    pub fn apply_observer_menu(&mut self, selected: ObserverChoice, changed: bool) -> (to_diagram:
        Option<ObserverChoice>)
        ensures
            (*final(self), to_diagram) == after_observer_menu(*old(self), selected, changed),
            final(self).observer == selected,
            final(self).colorspace == old(self).colorspace,
            final(self).normalize_illuminance == old(self).normalize_illuminance,
            to_diagram == (if changed { Some(selected) } else { None::<ObserverChoice> }),
    {
        self.observer = selected;
        if changed {
            Some(selected)
        } else {
            None
        }
    }

    /// Takes in what the RGB space menu reported: the space it now holds and
    /// whether the user changed it. Returns the space the diagram must
    /// switch to, if any.
    pub fn apply_colorspace_menu(&mut self, selected: ColorSpaceChoice, changed: bool) -> (to_diagram:
        Option<ColorSpaceChoice>)
        ensures
            (*final(self), to_diagram) == after_colorspace_menu(*old(self), selected, changed),
            final(self).colorspace == selected,
            final(self).observer == old(self).observer,
            final(self).normalize_illuminance == old(self).normalize_illuminance,
            to_diagram == (if changed { Some(selected) } else { None::<ColorSpaceChoice> }),
    {
        self.colorspace = selected;
        if changed {
            Some(selected)
        } else {
            None
        }
    }

    /// Turns the normalization of the tristimulus values on or off.
    pub fn set_normalize_illuminance(&mut self, normalize: bool)
        ensures
            *final(self) == (WindowState { normalize_illuminance: normalize, ..*old(self) }),
    {
        self.normalize_illuminance = normalize;
    }

    /// The text the observer menu shows for the selected observer.
    pub fn observer_text(&self) -> (text: &'static str)
        ensures
            text@ == observer_name_text(self.observer),
    {
        observer_label(self.observer)
    }

    /// The text the RGB space menu shows for the selected space.
    pub fn colorspace_text(&self) -> (text: &'static str)
        ensures
            text@ == colorspace_name_text(self.colorspace),
    {
        colorspace_label(self.colorspace)
    }
}

/// The diagram after it was told what a menu passed on.
pub open spec fn diagram_after_observer(diagram: DiagramSelection, note: Option<ObserverChoice>) -> DiagramSelection {
    match note {
        Some(observer) => DiagramSelection { observer, ..diagram },
        None => diagram,
    }
}

/// The diagram after it was told what the RGB space menu passed on.
pub open spec fn diagram_after_colorspace(
    diagram: DiagramSelection,
    note: Option<ColorSpaceChoice>,
) -> DiagramSelection {
    match note {
        Some(colorspace) => DiagramSelection { colorspace, ..diagram },
        None => diagram,
    }
}

/// A menu keeps the window and the diagram in step: when they agree before,
/// and the menu reports a change whenever the value it holds differs from
/// the window's, they agree again once the diagram was told what the menu
/// passed on.
pub proof fn lemma_observer_menu_keeps_sync(
    window: WindowState,
    diagram: DiagramSelection,
    selected: ObserverChoice,
    changed: bool,
)
    requires
        in_sync(window, diagram),
        selected != window.observer ==> changed,
    ensures
        ({
            let (window2, note) = after_observer_menu(window, selected, changed);
            in_sync(window2, diagram_after_observer(diagram, note))
        }),
{
}

/// The RGB space menu keeps the window and the diagram in step, as the
/// observer menu does.
pub proof fn lemma_colorspace_menu_keeps_sync(
    window: WindowState,
    diagram: DiagramSelection,
    selected: ColorSpaceChoice,
    changed: bool,
)
    requires
        in_sync(window, diagram),
        selected != window.colorspace ==> changed,
    ensures
        ({
            let (window2, note) = after_colorspace_menu(window, selected, changed);
            in_sync(window2, diagram_after_colorspace(diagram, note))
        }),
{
}

} // verus!
