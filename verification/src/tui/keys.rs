//! How the dashboard answers keys in its popups and input fields.

use vstd::prelude::*;
use crate::text::{pop_char, pop_seq, string_push, trim, trim_is_empty, trim_seq};
use crate::tui::app::{App, AppAction, ColorPickerRow, KeyCode, KeyInput, screen_from_index_spec};
use crate::tui::palette::{ThemeColor, ansi_rgb, base_palette_color_at, base_palette_len, base_picker_seq, clamp_base, is_first_nearest_base, nearest_base_palette_index, nearest_shade_index, shade_gradient_for_base, shade_of, dist2};
use crate::tui::theme::{ThemeColorField, field_index, palette_colors, theme_color_from_field, theme_color_from_field_mut};

verus! {

/// The effect of a key in the chat input: Esc leaves the input, Enter
/// sends the trimmed text (when not blank) and clears the input, Backspace
/// deletes the last character, and a character typed without Control is
/// appended.
pub open spec fn input_mode_post(o: App, k: KeyInput, n: App, r: AppAction) -> bool {
    match k.code {
        KeyCode::Esc => n == (App { input_mode: false, ..o }) && r is Nothing,
        KeyCode::Enter => {
            &&& n == (App { chat_input: n.chat_input, ..o })
            &&& n.chat_input@.len() == 0
            &&& if trim_seq(o.chat_input@).len() > 0 {
                (r matches AppAction::SendPrompt(p) && p@ == trim_seq(o.chat_input@))
            } else {
                r is Nothing
            }
        },
        KeyCode::Backspace => n == (App { chat_input: n.chat_input, ..o }) && n.chat_input@ == pop_seq(
            o.chat_input@,
        ) && r is Nothing,
        KeyCode::Char(c) => (if !k.ctrl {
            n == (App { chat_input: n.chat_input, ..o }) && n.chat_input@ == o.chat_input@.push(c)
        } else {
            n == o
        }) && r is Nothing,
        _ => n == o && r is Nothing,
    }
}

/// The effect of a key in the model selector: arrows move within the list,
/// Enter picks the hovered model and closes the selector, Esc closes it.
pub open spec fn model_selector_post(o: App, k: KeyInput, n: App, r: AppAction) -> bool {
    match k.code {
        KeyCode::Esc => n == (App { show_model_selector: false, ..o }) && r is Nothing,
        KeyCode::Up => n == (App {
            model_hover_idx: if o.model_hover_idx > 0 {
                (o.model_hover_idx - 1) as usize
            } else {
                o.model_hover_idx
            },
            ..o
        }) && r is Nothing,
        KeyCode::Down => n == (App {
            model_hover_idx: if o.model_hover_idx + 1 < o.model_list@.len() {
                (o.model_hover_idx + 1) as usize
            } else {
                o.model_hover_idx
            },
            ..o
        }) && r is Nothing,
        KeyCode::Enter => if o.model_hover_idx < o.model_list@.len() {
            n == (App { show_model_selector: false, ..o }) && (r matches AppAction::SelectModel(m)
                && m@ == o.model_list@[o.model_hover_idx as int]@)
        } else {
            n == o && r is Nothing
        },
        _ => n == o && r is Nothing,
    }
}

/// The effect of a key in the screen navigator: arrows move between the two
/// screens, Enter switches to the hovered one, Esc closes the navigator.
pub open spec fn navigator_post(o: App, k: KeyInput, n: App, r: AppAction) -> bool {
    match k.code {
        KeyCode::Esc => n == (App { show_navigator: false, ..o }) && r is Nothing,
        KeyCode::Up => n == (App {
            navigator_hover_idx: if o.navigator_hover_idx > 0 {
                (o.navigator_hover_idx - 1) as usize
            } else {
                o.navigator_hover_idx
            },
            ..o
        }) && r is Nothing,
        KeyCode::Down => n == (App {
            navigator_hover_idx: if o.navigator_hover_idx + 1 < 2 {
                (o.navigator_hover_idx + 1) as usize
            } else {
                o.navigator_hover_idx
            },
            ..o
        }) && r is Nothing,
        KeyCode::Enter => n == (App { show_navigator: false, ..o }) && r == AppAction::SelectScreen(
            screen_from_index_spec(o.navigator_hover_idx),
        ),
        _ => n == o && r is Nothing,
    }
}

impl App {
    /// Answers a key in the chat input (see `input_mode_post`).
    pub fn on_key_input_mode(&mut self, key: KeyInput) -> (r: AppAction)
        ensures
            input_mode_post(*old(self), key, *final(self), r),
    {
        match key.code {
            KeyCode::Esc => {
                self.input_mode = false;
                AppAction::Nothing
            },
            KeyCode::Enter => {
                let prompt = trim(self.chat_input.as_str());
                self.chat_input = String::new();
                if !trim_is_empty(prompt.as_str()) {
                    proof {
                        crate::text::lemma_trim_idempotent(old(self).chat_input@);
                    }
                    AppAction::SendPrompt(prompt)
                } else {
                    proof {
                        crate::text::lemma_trim_idempotent(old(self).chat_input@);
                    }
                    AppAction::Nothing
                }
            },
            KeyCode::Backspace => {
                pop_char(&mut self.chat_input);
                AppAction::Nothing
            },
            KeyCode::Char(c) => {
                if !key.ctrl {
                    string_push(&mut self.chat_input, c);
                }
                AppAction::Nothing
            },
            _ => AppAction::Nothing,
        }
    }

    /// Answers a key in the model selector (see `model_selector_post`).
    pub fn on_key_model_selector(&mut self, key: KeyInput) -> (r: AppAction)
        requires
            old(self).model_hover_idx < usize::MAX,
        ensures
            model_selector_post(*old(self), key, *final(self), r),
            final(self).model_hover_idx < usize::MAX,
    {
        match key.code {
            KeyCode::Esc => {
                self.show_model_selector = false;
                AppAction::Nothing
            },
            KeyCode::Up => {
                if self.model_hover_idx > 0 {
                    self.model_hover_idx -= 1;
                }
                AppAction::Nothing
            },
            KeyCode::Down => {
                if self.model_hover_idx + 1 < self.model_list.len() {
                    self.model_hover_idx += 1;
                }
                AppAction::Nothing
            },
            KeyCode::Enter => {
                if self.model_hover_idx < self.model_list.len() {
                    let model = self.model_list[self.model_hover_idx].clone();
                    self.show_model_selector = false;
                    AppAction::SelectModel(model)
                } else {
                    AppAction::Nothing
                }
            },
            _ => AppAction::Nothing,
        }
    }

    /// Answers a key in the screen navigator (see `navigator_post`).
    pub fn on_key_navigator(&mut self, key: KeyInput) -> (r: AppAction)
        requires
            old(self).navigator_hover_idx < usize::MAX,
        ensures
            navigator_post(*old(self), key, *final(self), r),
    {
        match key.code {
            KeyCode::Esc => {
                self.show_navigator = false;
                AppAction::Nothing
            },
            KeyCode::Up => {
                if self.navigator_hover_idx > 0 {
                    self.navigator_hover_idx -= 1;
                }
                AppAction::Nothing
            },
            KeyCode::Down => {
                if self.navigator_hover_idx + 1 < 2 {
                    self.navigator_hover_idx += 1;
                }
                AppAction::Nothing
            },
            KeyCode::Enter => {
                self.show_navigator = false;
                AppAction::SelectScreen(Self::screen_from_index(self.navigator_hover_idx))
            },
            _ => AppAction::Nothing,
        }
    }
}

/// The colour under the picker's cursor: the hovered base colour in the
/// two base rows, the hovered shade (of the chosen base) in the shade row.
pub open spec fn picker_color(o: App) -> ThemeColor {
    match o.color_picker_row {
        ColorPickerRow::BasePrimary => ansi_rgb(base_picker_seq()[clamp_base(o.color_picker_primary_idx)]),
        ColorPickerRow::BaseExtended => ansi_rgb(base_picker_seq()[clamp_base(o.color_picker_extended_idx)]),
        ColorPickerRow::Shade => shade_of(
            ansi_rgb(base_picker_seq()[clamp_base(o.color_picker_idx)]),
            if o.color_picker_shade_idx < 15 {
                o.color_picker_shade_idx as int
            } else {
                15
            },
        ),
    }
}

/// Moving the picker's cursor left within its row.
pub open spec fn picker_left_post(o: App, n: App) -> bool {
    match o.color_picker_row {
        ColorPickerRow::BasePrimary => if o.color_picker_primary_idx > 0 {
            n == (App {
                color_picker_primary_idx: (o.color_picker_primary_idx - 1) as usize,
                color_picker_idx: (o.color_picker_primary_idx - 1) as usize,
                ..o
            })
        } else {
            n == o
        },
        ColorPickerRow::BaseExtended => if o.color_picker_extended_idx > 16 {
            n == (App {
                color_picker_extended_idx: (o.color_picker_extended_idx - 1) as usize,
                color_picker_idx: (o.color_picker_extended_idx - 1) as usize,
                ..o
            })
        } else {
            n == o
        },
        ColorPickerRow::Shade => if o.color_picker_shade_idx > 0 {
            n == (App { color_picker_shade_idx: (o.color_picker_shade_idx - 1) as usize, ..o })
        } else {
            n == o
        },
    }
}

/// Moving the picker's cursor right within its row.
pub open spec fn picker_right_post(o: App, n: App) -> bool {
    match o.color_picker_row {
        ColorPickerRow::BasePrimary => if o.color_picker_primary_idx < 15 {
            n == (App {
                color_picker_primary_idx: (o.color_picker_primary_idx + 1) as usize,
                color_picker_idx: (o.color_picker_primary_idx + 1) as usize,
                ..o
            })
        } else {
            n == o
        },
        ColorPickerRow::BaseExtended => if o.color_picker_extended_idx + 1 < 32 {
            n == (App {
                color_picker_extended_idx: (o.color_picker_extended_idx + 1) as usize,
                color_picker_idx: (o.color_picker_extended_idx + 1) as usize,
                ..o
            })
        } else {
            n == o
        },
        ColorPickerRow::Shade => if o.color_picker_shade_idx < 15 {
            n == (App { color_picker_shade_idx: (o.color_picker_shade_idx + 1) as usize, ..o })
        } else {
            n == o
        },
    }
}

/// Applying the picked colour: written into the draft theme at the
/// picker's field (marking the configuration changed), then the picker
/// closes.
pub open spec fn picker_apply_post(o: App, n: App) -> bool {
    match o.color_picker_field {
        Some(f) => {
            &&& n == (App {
                theme_draft: n.theme_draft,
                config_dirty: true,
                show_color_picker: false,
                color_picker_field: None,
                ..o
            })
            &&& palette_colors(n.theme_draft) == palette_colors(o.theme_draft).update(
                field_index(f),
                picker_color(o),
            )
            &&& n.theme_draft.extra == o.theme_draft.extra
        },
        None => n == (App { show_color_picker: false, color_picker_field: None, ..o }),
    }
}

/// The effect of a key in the colour picker: Up/Down change row (without
/// wrapping), Left/Right move within the row (base row one 0..15, base
/// row two 16..31, shades 0..15; a base move also picks that base), Enter
/// applies the colour under the cursor, Esc closes the picker.
pub open spec fn color_picker_post(o: App, k: KeyInput, n: App, r: AppAction) -> bool {
    &&& r is Nothing
    &&& match k.code {
        KeyCode::Esc => n == (App { show_color_picker: false, color_picker_field: None, ..o }),
        KeyCode::Up => n == (App {
            color_picker_row: match o.color_picker_row {
                ColorPickerRow::Shade => ColorPickerRow::BaseExtended,
                _ => ColorPickerRow::BasePrimary,
            },
            ..o
        }),
        KeyCode::Down => n == (App {
            color_picker_row: match o.color_picker_row {
                ColorPickerRow::BasePrimary => ColorPickerRow::BaseExtended,
                _ => ColorPickerRow::Shade,
            },
            ..o
        }),
        KeyCode::Left => picker_left_post(o, n),
        KeyCode::Right => picker_right_post(o, n),
        KeyCode::Enter => picker_apply_post(o, n),
        _ => n == o,
    }
}

/// Opening the picker for `field`: it starts at the base colour nearest
/// to the field's draft colour (in the row holding it) and at the shade of
/// that base nearest to the draft colour.
pub open spec fn open_picker_post(o: App, field: ThemeColorField, n: App) -> bool {
    let current = palette_colors(o.theme_draft)[field_index(field)];
    exists|base: int| {
        &&& is_first_nearest_base(current, base)
        &&& n == (App {
            color_picker_primary_idx: if base < 15 {
                base as usize
            } else {
                15
            },
            color_picker_extended_idx: if base < 16 {
                16
            } else {
                base as usize
            },
            show_color_picker: true,
            color_picker_field: Some(field),
            color_picker_row: if base < 16 {
                ColorPickerRow::BasePrimary
            } else {
                ColorPickerRow::BaseExtended
            },
            color_picker_idx: base as usize,
            color_picker_shade_idx: n.color_picker_shade_idx,
            ..o
        })
        &&& n.color_picker_shade_idx < 16
        &&& forall|j: int|
            0 <= j < 16 ==> dist2(current, shade_of(ansi_rgb(base_picker_seq()[base]), n.color_picker_shade_idx as int))
                <= dist2(current, #[trigger] shade_of(ansi_rgb(base_picker_seq()[base]), j))
        &&& forall|j: int|
            0 <= j < n.color_picker_shade_idx ==> dist2(
                current,
                shade_of(ansi_rgb(base_picker_seq()[base]), n.color_picker_shade_idx as int),
            ) < dist2(current, #[trigger] shade_of(ansi_rgb(base_picker_seq()[base]), j))
    }
}

impl App {
    /// The colour under the picker's cursor (see `picker_color`).
    pub fn color_picker_current_color(&self) -> (c: ThemeColor)
        ensures
            c == picker_color(*self),
    {
        match self.color_picker_row {
            ColorPickerRow::BasePrimary => base_palette_color_at(self.color_picker_primary_idx),
            ColorPickerRow::BaseExtended => base_palette_color_at(self.color_picker_extended_idx),
            ColorPickerRow::Shade => {
                let shades = shade_gradient_for_base(self.color_picker_idx);
                let i = if self.color_picker_shade_idx < 15 {
                    self.color_picker_shade_idx
                } else {
                    15
                };
                shades[i]
            },
        }
    }

    /// The draft theme's colour for `field`.
    pub fn theme_color_for_editor(&self, field: ThemeColorField) -> (c: ThemeColor)
        ensures
            c == palette_colors(self.theme_draft)[field_index(field)],
    {
        theme_color_from_field(&self.theme_draft, field)
    }

    /// Sets the draft theme's colour for `field`.
    pub fn theme_color_for_editor_mut(&mut self, field: ThemeColorField, color: ThemeColor)
        ensures
            *final(self) == (App { theme_draft: final(self).theme_draft, ..*old(self) }),
            palette_colors(final(self).theme_draft) == palette_colors(old(self).theme_draft).update(
                field_index(field),
                color,
            ),
            final(self).theme_draft.extra == old(self).theme_draft.extra,
    {
        theme_color_from_field_mut(&mut self.theme_draft, field, color);
    }

    /// Opens the colour picker for `field` (see `open_picker_post`).
    pub fn open_color_picker_for_field(&mut self, field: ThemeColorField)
        ensures
            open_picker_post(*old(self), field, *final(self)),
    {
        let current = self.theme_color_for_editor(field);
        let base_idx = nearest_base_palette_index(current);
        self.color_picker_primary_idx = if base_idx < 15 {
            base_idx
        } else {
            15
        };
        let last = base_palette_len() - 1;
        self.color_picker_extended_idx = if base_idx < 16 {
            16
        } else if base_idx < last {
            base_idx
        } else {
            last
        };
        self.show_color_picker = true;
        self.color_picker_field = Some(field);
        self.color_picker_row = if base_idx < 16 {
            ColorPickerRow::BasePrimary
        } else {
            ColorPickerRow::BaseExtended
        };
        self.color_picker_idx = base_idx;
        self.color_picker_shade_idx = nearest_shade_index(base_idx, current);
        assert(clamp_base(base_idx) == base_idx as int);
    }

    fn picker_left(&mut self)
        ensures
            picker_left_post(*old(self), *final(self)),
    {
        match self.color_picker_row {
            ColorPickerRow::BasePrimary => {
                if self.color_picker_primary_idx > 0 {
                    self.color_picker_primary_idx -= 1;
                    self.color_picker_idx = self.color_picker_primary_idx;
                }
            },
            ColorPickerRow::BaseExtended => {
                if self.color_picker_extended_idx > 16 {
                    self.color_picker_extended_idx -= 1;
                    self.color_picker_idx = self.color_picker_extended_idx;
                }
            },
            ColorPickerRow::Shade => {
                if self.color_picker_shade_idx > 0 {
                    self.color_picker_shade_idx -= 1;
                }
            },
        }
    }

    fn picker_right(&mut self)
        requires
            old(self).color_picker_extended_idx < usize::MAX,
        ensures
            picker_right_post(*old(self), *final(self)),
    {
        match self.color_picker_row {
            ColorPickerRow::BasePrimary => {
                if self.color_picker_primary_idx < 15 {
                    self.color_picker_primary_idx += 1;
                    self.color_picker_idx = self.color_picker_primary_idx;
                }
            },
            ColorPickerRow::BaseExtended => {
                if self.color_picker_extended_idx + 1 < base_palette_len() {
                    self.color_picker_extended_idx += 1;
                    self.color_picker_idx = self.color_picker_extended_idx;
                }
            },
            ColorPickerRow::Shade => {
                if self.color_picker_shade_idx < 15 {
                    self.color_picker_shade_idx += 1;
                }
            },
        }
    }

    fn picker_apply(&mut self)
        ensures
            picker_apply_post(*old(self), *final(self)),
    {
        if let Some(field) = self.color_picker_field {
            let picked = self.color_picker_current_color();
            self.theme_color_for_editor_mut(field, picked);
            self.config_dirty = true;
        }
        self.show_color_picker = false;
        self.color_picker_field = None;
    }

    /// Answers a key in the colour picker (see `color_picker_post`).
    pub fn on_key_color_picker(&mut self, key: KeyInput) -> (r: AppAction)
        requires
            old(self).color_picker_extended_idx < usize::MAX,
        ensures
            color_picker_post(*old(self), key, *final(self), r),
    {
        match key.code {
            KeyCode::Esc => {
                self.show_color_picker = false;
                self.color_picker_field = None;
            },
            KeyCode::Up => {
                self.color_picker_row = match self.color_picker_row {
                    ColorPickerRow::Shade => ColorPickerRow::BaseExtended,
                    ColorPickerRow::BaseExtended => ColorPickerRow::BasePrimary,
                    ColorPickerRow::BasePrimary => ColorPickerRow::BasePrimary,
                };
            },
            KeyCode::Down => {
                self.color_picker_row = match self.color_picker_row {
                    ColorPickerRow::BasePrimary => ColorPickerRow::BaseExtended,
                    ColorPickerRow::BaseExtended => ColorPickerRow::Shade,
                    ColorPickerRow::Shade => ColorPickerRow::Shade,
                };
            },
            KeyCode::Left => self.picker_left(),
            KeyCode::Right => self.picker_right(),
            KeyCode::Enter => self.picker_apply(),
            _ => {},
        }
        AppAction::Nothing
    }
}

} // verus!
