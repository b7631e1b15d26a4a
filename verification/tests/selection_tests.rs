use chromaticity::color_choice::{
    colorspace_label, colorspace_menu, observer_label, observer_menu, spectral_locus_wavelengths,
    ColorSpaceChoice, ObserverChoice,
};
use chromaticity::selection::{DiagramSelection, WindowState};

#[test]
fn window_opens_with_cie1931_and_srgb() {
    let window = WindowState::new();
    assert_eq!(window.observer, ObserverChoice::Cie1931);
    assert_eq!(window.colorspace, ColorSpaceChoice::Srgb);
    assert!(window.normalize_illuminance);
    assert_eq!(
        window.diagram_selection(),
        DiagramSelection { observer: ObserverChoice::Cie1931, colorspace: ColorSpaceChoice::Srgb }
    );
}

#[test]
fn observer_menu_change_reaches_the_diagram() {
    let mut window = WindowState::new();
    let mut diagram = window.diagram_selection();
    let note = window.apply_observer_menu(ObserverChoice::Cie2015_10, true);
    assert_eq!(note, Some(ObserverChoice::Cie2015_10));
    if let Some(observer) = note {
        diagram.set_observer(observer);
    }
    assert_eq!(window.observer, ObserverChoice::Cie2015_10);
    assert_eq!(diagram.observer, ObserverChoice::Cie2015_10);
    assert_eq!(diagram.colorspace, ColorSpaceChoice::Srgb);
}

#[test]
fn unchanged_menu_passes_nothing_on() {
    let mut window = WindowState::new();
    assert_eq!(window.apply_observer_menu(ObserverChoice::Cie1931, false), None);
    assert_eq!(window.apply_colorspace_menu(ColorSpaceChoice::Srgb, false), None);
    assert_eq!(window, WindowState::new());
}

#[test]
fn colorspace_menu_change_reaches_the_diagram() {
    let mut window = WindowState::new();
    let mut diagram = window.diagram_selection();
    if let Some(colorspace) = window.apply_colorspace_menu(ColorSpaceChoice::DisplayP3, true) {
        diagram.set_colorspace(colorspace);
    }
    assert_eq!(window.diagram_selection(), diagram);
    assert_eq!(diagram.colorspace, ColorSpaceChoice::DisplayP3);
}

#[test]
fn normalization_toggle() {
    let mut window = WindowState::new();
    window.set_normalize_illuminance(false);
    assert!(!window.normalize_illuminance);
    assert_eq!(window.observer, ObserverChoice::Cie1931);
}

#[test]
fn labels_come_from_colorimetry() {
    assert_eq!(observer_label(ObserverChoice::Cie1931), "CIE 1931 2°");
    assert_eq!(observer_label(ObserverChoice::Cie1964), "CIE 1964 10°");
    assert_eq!(observer_label(ObserverChoice::Cie2015), "CIE 2015 2°");
    assert_eq!(observer_label(ObserverChoice::Cie2015_10), "CIE 2015 10°");
    assert_eq!(colorspace_label(ColorSpaceChoice::Srgb), "sRGB");
    assert_eq!(colorspace_label(ColorSpaceChoice::Adobe), "Adobe RGB");
    assert_eq!(colorspace_label(ColorSpaceChoice::DisplayP3), "Display P3");
    assert_eq!(WindowState::new().observer_text(), "CIE 1931 2°");
    assert_eq!(WindowState::new().colorspace_text(), "sRGB");
}

#[test]
fn menus_list_choices_in_order() {
    let observers: Vec<_> = observer_menu().into_iter().map(|(o, _)| o).collect();
    assert_eq!(
        observers,
        vec![ObserverChoice::Cie1931, ObserverChoice::Cie1964, ObserverChoice::Cie2015, ObserverChoice::Cie2015_10]
    );
    assert_eq!(observer_menu()[3].1, "CIE 2015 10°");
    assert_eq!(
        colorspace_menu(),
        vec![
            (ColorSpaceChoice::Srgb, "sRGB"),
            (ColorSpaceChoice::Adobe, "Adobe RGB"),
            (ColorSpaceChoice::DisplayP3, "Display P3")
        ]
    );
}

#[test]
fn spectral_locus_wavelengths_per_observer() {
    let w = spectral_locus_wavelengths(ObserverChoice::Cie1931);
    assert_eq!(w.len(), 320);
    assert_eq!(w[0], 380);
    assert_eq!(*w.last().unwrap(), 699);
    assert!(w.windows(2).all(|p| p[1] == p[0] + 1));
    let w = spectral_locus_wavelengths(ObserverChoice::Cie1964);
    assert_eq!((w[0], *w.last().unwrap()), (380, 701));
    let w = spectral_locus_wavelengths(ObserverChoice::Cie2015);
    assert_eq!((w[0], *w.last().unwrap()), (390, 703));
    let w = spectral_locus_wavelengths(ObserverChoice::Cie2015_10);
    assert_eq!((w[0], *w.last().unwrap()), (390, 699));
}
