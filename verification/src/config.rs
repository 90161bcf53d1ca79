//! The user's settings: color scheme and languages.

use vstd::prelude::*;
use crate::message::Message;

verus! {

/// The color schemes of the user interface.
#[derive(Clone, Copy, Debug, PartialEq, Eq, Hash, Structural)]
pub enum ColorScheme {
    LightBlue,
    DarkOrange,
    WindowsLight,
    WindowsDark,
    Sakura,
    Violet,
    Chrome,
}

/// The languages of the user interface and of the e-mail report.
#[derive(Clone, Copy, Debug, PartialEq, Eq, Hash, Structural)]
pub enum Locale {
    System,
    English,
    Japanese,
    German,
    Chinese,
    Vietnamese,
    Spanish,
}

/// The settings.
#[derive(Clone, Copy, Debug, PartialEq, Eq, Structural)]
pub struct Config {
    pub color_scheme: ColorScheme,
    pub locale: Locale,
    pub email_locale: Locale,
}

/// The color schemes in the order the settings screen and the scheme
/// button offer them.
pub open spec fn spec_color_schemes() -> Seq<ColorScheme> {
    seq![
        ColorScheme::LightBlue,
        ColorScheme::DarkOrange,
        ColorScheme::WindowsLight,
        ColorScheme::WindowsDark,
        ColorScheme::Sakura,
        ColorScheme::Violet,
        ColorScheme::Chrome,
    ]
}

/// The color schemes, in the order offered.
pub fn color_schemes() -> (schemes: Vec<ColorScheme>)
    ensures
        schemes@ == spec_color_schemes(),
{
    let schemes = vec![
        ColorScheme::LightBlue,
        ColorScheme::DarkOrange,
        ColorScheme::WindowsLight,
        ColorScheme::WindowsDark,
        ColorScheme::Sakura,
        ColorScheme::Violet,
        ColorScheme::Chrome,
    ];
    assert(schemes@ =~= spec_color_schemes());
    schemes
}

/// The languages in the order the settings screen offers them.
pub open spec fn spec_locale_options() -> Seq<Locale> {
    seq![
        Locale::System,
        Locale::Japanese,
        Locale::English,
        Locale::Chinese,
        Locale::German,
        Locale::Vietnamese,
        Locale::Spanish,
    ]
}

/// The languages, in the order offered.
pub fn locale_options() -> (locales: Vec<Locale>)
    ensures
        locales@ == spec_locale_options(),
{
    let locales = vec![
        Locale::System,
        Locale::Japanese,
        Locale::English,
        Locale::Chinese,
        Locale::German,
        Locale::Vietnamese,
        Locale::Spanish,
    ];
    assert(locales@ =~= spec_locale_options());
    locales
}

impl ColorScheme {
    /// The name of the scheme.
    pub fn label(&self) -> (name: Message)
        ensures
            name == match *self {
                ColorScheme::LightBlue => Message::LightBlue,
                ColorScheme::DarkOrange => Message::DarkOrange,
                ColorScheme::WindowsLight => Message::WindowsLight,
                ColorScheme::WindowsDark => Message::WindowsDark,
                ColorScheme::Sakura => Message::Sakura,
                ColorScheme::Violet => Message::Violet,
                ColorScheme::Chrome => Message::Chrome,
            },
    {
        match self {
            ColorScheme::LightBlue => Message::LightBlue,
            ColorScheme::DarkOrange => Message::DarkOrange,
            ColorScheme::WindowsLight => Message::WindowsLight,
            ColorScheme::WindowsDark => Message::WindowsDark,
            ColorScheme::Sakura => Message::Sakura,
            ColorScheme::Violet => Message::Violet,
            ColorScheme::Chrome => Message::Chrome,
        }
    }
}

impl Locale {
    /// The name of the language.
    pub fn label(&self) -> (name: Message)
        ensures
            name == match *self {
                Locale::System => Message::System,
                Locale::English => Message::English,
                Locale::Japanese => Message::Japanese,
                Locale::German => Message::German,
                Locale::Chinese => Message::Chinese,
                Locale::Vietnamese => Message::Vietnamese,
                Locale::Spanish => Message::Spanish,
            },
    {
        match self {
            Locale::System => Message::System,
            Locale::English => Message::English,
            Locale::Japanese => Message::Japanese,
            Locale::German => Message::German,
            Locale::Chinese => Message::Chinese,
            Locale::Vietnamese => Message::Vietnamese,
            Locale::Spanish => Message::Spanish,
        }
    }
}

} // verus!
