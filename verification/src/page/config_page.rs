//! The settings screen: the choices made there take effect at once, and are
//! saved when the screen is left.

use vstd::prelude::*;
use crate::config::{ColorScheme, Config, Locale};
use crate::page::Pages;

verus! {

/// The state of the settings screen.
pub struct ConfigPage {
    pub back_page: Pages,
    pub config: Config,
}

impl ConfigPage {
    /// The screen, showing `config`, going back to the main screen.
    pub fn new(config: Config) -> (page: Self)
        ensures
            page.back_page == Pages::Main,
            page.config == config,
    {
        ConfigPage { back_page: Pages::Main, config }
    }

    /// Entering from `from` with the settings as stored: the close button
    /// leads back to `from`.
    pub fn on_entry(&mut self, from: Pages, stored: Config)
        ensures
            final(self).back_page == from,
            final(self).config == stored,
    {
        self.back_page = from;
        self.config = stored;
    }

    /// A color scheme was picked: if it differs from the current one it
    /// becomes the scheme in use at once (`in_use`); the result says whether
    /// it changed.
    pub fn choose_color_scheme(&mut self, scheme: ColorScheme, in_use: &mut Config) -> (changed: bool)
        ensures
            changed == (scheme != old(self).config.color_scheme),
            final(self).config == (Config { color_scheme: scheme, ..old(self).config }),
            *final(in_use) == if changed {
                Config { color_scheme: scheme, ..*old(in_use) }
            } else {
                *old(in_use)
            },
            final(self).back_page == old(self).back_page,
    {
        let changed = self.config.color_scheme != scheme;
        if changed {
            self.config.color_scheme = scheme;
            in_use.color_scheme = scheme;
        }
        changed
    }

    /// A display language was picked: if it differs from the current one it
    /// becomes the language in use at once; the result says whether it
    /// changed, so that the translations are switched.
    pub fn choose_locale(&mut self, locale: Locale, in_use: &mut Config) -> (changed: bool)
        ensures
            changed == (locale != old(self).config.locale),
            final(self).config == (Config { locale, ..old(self).config }),
            *final(in_use) == if changed {
                Config { locale, ..*old(in_use) }
            } else {
                *old(in_use)
            },
            final(self).back_page == old(self).back_page,
    {
        let changed = self.config.locale != locale;
        if changed {
            self.config.locale = locale;
            in_use.locale = locale;
        }
        changed
    }

    /// The language of the e-mail report was picked, as above.
    pub fn choose_email_locale(&mut self, locale: Locale, in_use: &mut Config) -> (changed: bool)
        ensures
            changed == (locale != old(self).config.email_locale),
            final(self).config == (Config { email_locale: locale, ..old(self).config }),
            *final(in_use) == if changed {
                Config { email_locale: locale, ..*old(in_use) }
            } else {
                *old(in_use)
            },
            final(self).back_page == old(self).back_page,
    {
        let changed = self.config.email_locale != locale;
        if changed {
            self.config.email_locale = locale;
            in_use.email_locale = locale;
        }
        changed
    }

    /// The settings to save when the screen is left.
    pub fn on_exit(&self) -> (to_save: Config)
        ensures
            to_save == self.config,
    {
        self.config
    }
}

} // verus!
