//! The standard observers and RGB spaces that the diagram offers, their
//! names, and the wavelengths of the spectral locus of each observer.
//!
//! The names and wavelength ranges come from the `colorimetry` crate.

use vstd::prelude::*;
use colorimetry::observer::Observer;
use colorimetry::rgb::RgbSpace;

verus! {

/// A CIE standard observer offered by the diagram.
#[derive(Clone, Copy, Debug, PartialEq, Eq, Hash, Structural)]
pub enum ObserverChoice {
    /// CIE 1931 2° standard observer.
    Cie1931,
    /// CIE 1964 10° supplementary standard observer.
    Cie1964,
    /// CIE 2015 2° observer.
    Cie2015,
    /// CIE 2015 10° observer.
    Cie2015_10,
}

/// An RGB space whose gamut and colors the diagram can show.
#[derive(Clone, Copy, Debug, PartialEq, Eq, Hash, Structural)]
pub enum ColorSpaceChoice {
    /// sRGB.
    Srgb,
    /// Adobe RGB.
    Adobe,
    /// Display P3.
    DisplayP3,
}

/// The name under which `colorimetry` shows an observer.
pub open spec fn observer_name_text(observer: ObserverChoice) -> Seq<char> {
    match observer {
        ObserverChoice::Cie1931 => "CIE 1931 2°"@,
        ObserverChoice::Cie1964 => "CIE 1964 10°"@,
        ObserverChoice::Cie2015 => "CIE 2015 2°"@,
        ObserverChoice::Cie2015_10 => "CIE 2015 10°"@,
    }
}

/// The name under which `colorimetry` shows an RGB space.
pub open spec fn colorspace_name_text(colorspace: ColorSpaceChoice) -> Seq<char> {
    match colorspace {
        ColorSpaceChoice::Srgb => "sRGB"@,
        ColorSpaceChoice::Adobe => "Adobe RGB"@,
        ColorSpaceChoice::DisplayP3 => "Display P3"@,
    }
}

/// The first and the last wavelength, in nanometres, of the part of the
/// spectral locus of `observer` on which each wavelength has a chromaticity
/// of its own.
pub open spec fn spectral_locus_bounds(observer: ObserverChoice) -> (usize, usize) {
    match observer {
        ObserverChoice::Cie1931 => (380, 699),
        ObserverChoice::Cie1964 => (380, 701),
        ObserverChoice::Cie2015 => (390, 703),
        ObserverChoice::Cie2015_10 => (390, 699),
    }
}

/// The name of an observer, from `colorimetry::observer::Observer::name`,
/// which returns the name stored with the observer's data tables; the
/// contract states those four names.
#[verifier::external_body]
fn observer_name(observer: ObserverChoice) -> (name: &'static str)
    ensures
        name@ == observer_name_text(observer),
{
    let observer = match observer {
        ObserverChoice::Cie1931 => Observer::Cie1931,
        ObserverChoice::Cie1964 => Observer::Cie1964,
        ObserverChoice::Cie2015 => Observer::Cie2015,
        ObserverChoice::Cie2015_10 => Observer::Cie2015_10,
    };
    observer.name()
}

/// The name of an RGB space, from `colorimetry::rgb::RgbSpace::name`, which
/// returns the name stored with the space's data; the contract states those
/// three names.
#[verifier::external_body]
fn colorspace_name(colorspace: ColorSpaceChoice) -> (name: &'static str)
    ensures
        name@ == colorspace_name_text(colorspace),
{
    let colorspace = match colorspace {
        ColorSpaceChoice::Srgb => RgbSpace::SRGB,
        ColorSpaceChoice::Adobe => RgbSpace::Adobe,
        ColorSpaceChoice::DisplayP3 => RgbSpace::DisplayP3,
    };
    colorspace.name()
}

/// The spectral locus range of an observer, from
/// `colorimetry::observer::Observer::spectral_locus_wavelength_range`, which
/// returns the inclusive range stored with the observer's data tables; the
/// contract states its two ends for each observer.
#[verifier::external_body]
fn spectral_locus_range(observer: ObserverChoice) -> (bounds: (usize, usize))
    ensures
        bounds == spectral_locus_bounds(observer),
{
    let observer = match observer {
        ObserverChoice::Cie1931 => Observer::Cie1931,
        ObserverChoice::Cie1964 => Observer::Cie1964,
        ObserverChoice::Cie2015 => Observer::Cie2015,
        ObserverChoice::Cie2015_10 => Observer::Cie2015_10,
    };
    let range = observer.spectral_locus_wavelength_range();
    (*range.start(), *range.end())
}

/// The label under which `observer` is shown.
pub fn observer_label(observer: ObserverChoice) -> (label: &'static str)
    ensures
        label@ == observer_name_text(observer),
{
    observer_name(observer)
}

/// The label under which `colorspace` is shown.
pub fn colorspace_label(colorspace: ColorSpaceChoice) -> (label: &'static str)
    ensures
        label@ == colorspace_name_text(colorspace),
{
    colorspace_name(colorspace)
}

/// The observers offered, in menu order.
pub open spec fn observer_options() -> Seq<ObserverChoice> {
    seq![
        ObserverChoice::Cie1931,
        ObserverChoice::Cie1964,
        ObserverChoice::Cie2015,
        ObserverChoice::Cie2015_10,
    ]
}

/// The RGB spaces offered, in menu order.
pub open spec fn colorspace_options() -> Seq<ColorSpaceChoice> {
    seq![ColorSpaceChoice::Srgb, ColorSpaceChoice::Adobe, ColorSpaceChoice::DisplayP3]
}

/// The entries of the observer menu: each observer with its label, in menu
/// order.
pub fn observer_menu() -> (entries: Vec<(ObserverChoice, &'static str)>)
    ensures
        entries@.len() == observer_options().len(),
        forall|i: int|
            0 <= i < entries@.len() ==> (#[trigger] entries@[i]).0 == observer_options()[i]
                && entries@[i].1@ == observer_name_text(observer_options()[i]),
{
    let mut entries: Vec<(ObserverChoice, &'static str)> = Vec::new();
    entries.push((ObserverChoice::Cie1931, observer_label(ObserverChoice::Cie1931)));
    entries.push((ObserverChoice::Cie1964, observer_label(ObserverChoice::Cie1964)));
    entries.push((ObserverChoice::Cie2015, observer_label(ObserverChoice::Cie2015)));
    entries.push((ObserverChoice::Cie2015_10, observer_label(ObserverChoice::Cie2015_10)));
    entries
}

/// The entries of the RGB space menu: each space with its label, in menu
/// order.
pub fn colorspace_menu() -> (entries: Vec<(ColorSpaceChoice, &'static str)>)
    ensures
        entries@.len() == colorspace_options().len(),
        forall|i: int|
            0 <= i < entries@.len() ==> (#[trigger] entries@[i]).0 == colorspace_options()[i]
                && entries@[i].1@ == colorspace_name_text(colorspace_options()[i]),
{
    let mut entries: Vec<(ColorSpaceChoice, &'static str)> = Vec::new();
    entries.push((ColorSpaceChoice::Srgb, colorspace_label(ColorSpaceChoice::Srgb)));
    entries.push((ColorSpaceChoice::Adobe, colorspace_label(ColorSpaceChoice::Adobe)));
    entries.push((ColorSpaceChoice::DisplayP3, colorspace_label(ColorSpaceChoice::DisplayP3)));
    entries
}

/// Each menu offers every choice exactly once, the default one (CIE 1931
/// and sRGB) first.
pub proof fn lemma_menus_offer_each_choice_once(observer: ObserverChoice, colorspace: ColorSpaceChoice)
    ensures
        observer_options()[0] == ObserverChoice::Cie1931,
        colorspace_options()[0] == ColorSpaceChoice::Srgb,
        exists|i: int| 0 <= i < observer_options().len() && observer_options()[i] == observer,
        exists|i: int| 0 <= i < colorspace_options().len() && colorspace_options()[i] == colorspace,
        forall|i: int, j: int|
            0 <= i < j < observer_options().len() ==> observer_options()[i] != observer_options()[j],
        forall|i: int, j: int|
            0 <= i < j < colorspace_options().len() ==> colorspace_options()[i] != colorspace_options()[j],
{
    match observer {
        ObserverChoice::Cie1931 => assert(observer_options()[0] == observer),
        ObserverChoice::Cie1964 => assert(observer_options()[1] == observer),
        ObserverChoice::Cie2015 => assert(observer_options()[2] == observer),
        ObserverChoice::Cie2015_10 => assert(observer_options()[3] == observer),
    }
    match colorspace {
        ColorSpaceChoice::Srgb => assert(colorspace_options()[0] == colorspace),
        ColorSpaceChoice::Adobe => assert(colorspace_options()[1] == colorspace),
        ColorSpaceChoice::DisplayP3 => assert(colorspace_options()[2] == colorspace),
    }
}

/// The wavelengths, in nanometres and in increasing order, at which the
/// spectral locus of `observer` is traced: every whole wavelength of its
/// spectral locus range, both ends included.
pub open spec fn spectral_locus_wavelength_seq(observer: ObserverChoice) -> Seq<usize> {
    let (first, last) = spectral_locus_bounds(observer);
    Seq::new((last - first + 1) as nat, |i: int| (first + i) as usize)
}

/// Lists the wavelengths at which the spectral locus of `observer` is
/// traced, first to last.
pub fn spectral_locus_wavelengths(observer: ObserverChoice) -> (wavelengths: Vec<usize>)
    ensures
        wavelengths@ == spectral_locus_wavelength_seq(observer),
        wavelengths@.len() == spectral_locus_bounds(observer).1 - spectral_locus_bounds(observer).0 + 1,
        forall|i: int|
            0 <= i < wavelengths@.len() ==> #[trigger] wavelengths@[i] == spectral_locus_bounds(observer).0 + i,
{
    let (first, last) = spectral_locus_range(observer);
    let mut wavelengths: Vec<usize> = Vec::new();
    let mut wavelength = first;
    while wavelength <= last
        invariant
            (first, last) == spectral_locus_bounds(observer),
            first <= wavelength <= last + 1,
            wavelengths@ =~= spectral_locus_wavelength_seq(observer).take(wavelength - first),
        decreases last + 1 - wavelength,
    {
        wavelengths.push(wavelength);
        wavelength = wavelength + 1;
    }
    proof {
        lemma_spectral_locus_wavelengths_are_consecutive(observer);
    }
    wavelengths
}

/// The spectral locus of every observer is traced at every whole
/// nanometre of its range: the list starts at the first wavelength of the
/// range, ends at the last, and consecutive entries are one nanometre
/// apart, so it holds `last - first + 1` wavelengths.
pub proof fn lemma_spectral_locus_wavelengths_are_consecutive(observer: ObserverChoice)
    ensures
        ({
            let (first, last) = spectral_locus_bounds(observer);
            let w = spectral_locus_wavelength_seq(observer);
            &&& first <= last
            &&& w.len() == last - first + 1
            &&& w[0] == first
            &&& w[w.len() - 1] == last
            &&& forall|i: int| 0 <= i < w.len() ==> #[trigger] w[i] == first + i
            &&& forall|i: int| 0 <= i < w.len() - 1 ==> #[trigger] w[i + 1] == w[i] + 1
        }),
{
}

} // verus!
