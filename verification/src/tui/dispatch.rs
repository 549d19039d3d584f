//! Where a key goes: quitting, the navigator, closing overlays with Esc,
//! the open overlay or editor, help, the Customize screen, and the keys of
//! the Dashboard screen.

use vstd::prelude::*;
use crate::tui::app::{App, AppAction, KeyCode, KeyInput, Screen, screen_index_spec};
use crate::tui::customize::{customize_post, text_mode_post};
use crate::tui::keys::{color_picker_post, input_mode_post, model_selector_post, navigator_post};

verus! {

/// Tab opens the screen navigator on the active screen and closes help,
/// the model selector, the chat input, the inline editor and the colour
/// picker.
pub open spec fn tab_post(o: App, n: App) -> bool {
    n == (App {
        show_help: false,
        show_model_selector: false,
        show_navigator: true,
        input_mode: false,
        customize_text_mode: false,
        customize_text_target: None,
        show_color_picker: false,
        color_picker_field: None,
        navigator_hover_idx: screen_index_spec(o.active_screen),
        ..o
    })
}

/// Something is open that Esc closes.
pub open spec fn esc_closes(o: App) -> bool {
    o.show_help || o.show_model_selector || o.show_navigator || o.input_mode
        || o.show_color_picker || o.customize_text_mode
}

/// Esc closes the first open of: help, the model selector, the navigator,
/// the chat input, the colour picker (forgetting its field), the inline
/// editor (emptying its text and forgetting its target).
pub open spec fn esc_post(o: App, n: App) -> bool {
    if o.show_help {
        n == (App { show_help: false, ..o })
    } else if o.show_model_selector {
        n == (App { show_model_selector: false, ..o })
    } else if o.show_navigator {
        n == (App { show_navigator: false, ..o })
    } else if o.input_mode {
        n == (App { input_mode: false, ..o })
    } else if o.show_color_picker {
        n == (App { show_color_picker: false, color_picker_field: None, ..o })
    } else {
        &&& n == (App {
            customize_text_mode: false,
            customize_text_buffer: n.customize_text_buffer,
            customize_text_target: None,
            ..o
        })
        &&& n.customize_text_buffer@.len() == 0
    }
}

/// Keys of the Dashboard screen: `e` expands or collapses the events, `i`
/// starts the chat input, `m` asks for the model selector, `r` asks for a
/// refresh, Up and Down scroll the chat (saturating).
pub open spec fn dashboard_key_post(o: App, k: KeyInput, n: App, r: AppAction) -> bool {
    match k.code {
        KeyCode::Char(c) => if c == 'e' {
            n == (App { expanded_events: !o.expanded_events, ..o }) && r is Nothing
        } else if c == 'i' {
            n == (App { input_mode: true, ..o }) && r is Nothing
        } else if c == 'm' {
            n == o && r is OpenModelSelector
        } else if c == 'r' {
            n == o && r is Refresh
        } else {
            n == o && r is Nothing
        },
        KeyCode::Up => n == (App {
            chat_scroll: if o.chat_scroll > 0 {
                (o.chat_scroll - 1) as usize
            } else {
                0
            },
            ..o
        }) && r is Nothing,
        KeyCode::Down => n == (App {
            chat_scroll: if o.chat_scroll < usize::MAX {
                (o.chat_scroll + 1) as usize
            } else {
                usize::MAX
            },
            ..o
        }) && r is Nothing,
        _ => n == o && r is Nothing,
    }
}

/// The effect of a key, in order of precedence: `q` quits; Tab opens the
/// navigator; Esc closes what is open; while help is shown `h` hides it and
/// nothing else happens; the navigator, the model selector, the colour
/// picker, the chat input and the inline editor, when open, take the key;
/// `h` shows help; then the active screen's keys apply.
pub open spec fn key_post(o: App, k: KeyInput, now: u128, n: App, r: AppAction) -> bool {
    if k.code == KeyCode::Char('q') {
        n == (App { should_quit: true, ..o }) && r is Nothing
    } else if k.code == KeyCode::Tab {
        tab_post(o, n) && r is Nothing
    } else if k.code == KeyCode::Esc && esc_closes(o) {
        esc_post(o, n) && r is Nothing
    } else if o.show_help {
        (if k.code == KeyCode::Char('h') {
            n == (App { show_help: false, ..o })
        } else {
            n == o
        }) && r is Nothing
    } else if o.show_navigator {
        navigator_post(o, k, n, r)
    } else if o.show_model_selector {
        model_selector_post(o, k, n, r)
    } else if o.show_color_picker {
        color_picker_post(o, k, n, r)
    } else if o.input_mode {
        input_mode_post(o, k, n, r)
    } else if o.customize_text_mode {
        text_mode_post(o, k, n, r)
    } else if k.code == KeyCode::Char('h') {
        n == (App { show_help: true, ..o }) && r is Nothing
    } else if o.active_screen == Screen::Customize {
        customize_post(o, k, now, n, r)
    } else {
        dashboard_key_post(o, k, n, r)
    }
}

impl App {
    /// Whether the theme table is small enough for `on_key` (see
    /// `themes_steppable`).
    pub fn can_step_themes(&self) -> (b: bool)
        ensures
            b == self.themes_steppable(),
    {
        self.config.themes.len() < 2147483643
    }

    fn open_navigator(&mut self)
        ensures
            tab_post(*old(self), *final(self)),
    {
        self.show_help = false;
        self.show_model_selector = false;
        self.show_navigator = true;
        self.input_mode = false;
        self.customize_text_mode = false;
        self.customize_text_target = None;
        self.show_color_picker = false;
        self.color_picker_field = None;
        self.navigator_hover_idx = Self::screen_index(self.active_screen);
    }

    fn close_with_esc(&mut self)
        requires
            esc_closes(*old(self)),
        ensures
            esc_post(*old(self), *final(self)),
    {
        if self.show_help {
            self.show_help = false;
        } else if self.show_model_selector {
            self.show_model_selector = false;
        } else if self.show_navigator {
            self.show_navigator = false;
        } else if self.input_mode {
            self.input_mode = false;
        } else if self.show_color_picker {
            self.show_color_picker = false;
            self.color_picker_field = None;
        } else {
            self.customize_text_mode = false;
            self.customize_text_buffer = String::new();
            self.customize_text_target = None;
        }
    }

    fn on_key_dashboard(&mut self, key: KeyInput) -> (r: AppAction)
        ensures
            dashboard_key_post(*old(self), key, *final(self), r),
    {
        match key.code {
            KeyCode::Char(c) => {
                if c == 'e' {
                    self.expanded_events = !self.expanded_events;
                } else if c == 'i' {
                    self.input_mode = true;
                } else if c == 'm' {
                    return AppAction::OpenModelSelector;
                } else if c == 'r' {
                    return AppAction::Refresh;
                }
            },
            KeyCode::Up => self.chat_scroll = self.chat_scroll.saturating_sub(1),
            KeyCode::Down => self.chat_scroll = self.chat_scroll.saturating_add(1),
            _ => {},
        }
        AppAction::Nothing
    }

    /// Answers a key press (see `key_post`); the dashboard's invariant is
    /// kept.
    pub fn on_key(&mut self, key: KeyInput, now_ns: u128) -> (r: AppAction)
        requires
            old(self).wf(),
            old(self).themes_steppable(),
        ensures
            key_post(*old(self), key, now_ns, *final(self), r),
            final(self).wf(),
    {
        if key.code == KeyCode::Char('q') {
            self.should_quit = true;
            return AppAction::Nothing;
        }
        if key.code == KeyCode::Tab {
            self.open_navigator();
            return AppAction::Nothing;
        }
        if key.code == KeyCode::Esc && (self.show_help || self.show_model_selector
            || self.show_navigator || self.input_mode || self.show_color_picker
            || self.customize_text_mode) {
            self.close_with_esc();
            return AppAction::Nothing;
        }
        if self.show_help {
            if key.code == KeyCode::Char('h') {
                self.show_help = false;
            }
            return AppAction::Nothing;
        }
        if self.show_navigator {
            return self.on_key_navigator(key);
        }
        if self.show_model_selector {
            return self.on_key_model_selector(key);
        }
        if self.show_color_picker {
            return self.on_key_color_picker(key);
        }
        if self.input_mode {
            return self.on_key_input_mode(key);
        }
        if self.customize_text_mode {
            return self.on_key_customize_text_mode(key);
        }
        if key.code == KeyCode::Char('h') {
            self.show_help = true;
            return AppAction::Nothing;
        }
        if self.active_screen == Screen::Customize {
            return self.on_key_customize(key, now_ns);
        }
        self.on_key_dashboard(key)
    }
}

} // verus!
