use sys_tui::tui::app::{
    App, AppAction, ChatJobResult, ColorPickerRow, CustomizeSection, DashboardOption, KeyCode,
    KeyInput, Screen, ThemesOption, CHAT_HISTORY_MAX,
};
use sys_tui::tui::classic::{ClassicAction, ClassicApp};
use sys_tui::tui::config::AppConfig;
use sys_tui::tui::names::{DashboardLayoutPreset, NamedColor};
use sys_tui::tui::palette::ThemeColor;
use sys_tui::tui::panels::ThemeRow;
use sys_tui::tui::session::{agent_link, chat_job_result, poll_due, Outcome};
use sys_tui::tui::theme::ThemeColorField;
use sys_tui::tui::view::{mark_color, mark_label, FlowMark, EMPTY_CHAT_HINT};
use sys_tui::wire::{ChatResponse, LlmMetrics, ModelsResponse};

fn s(v: &str) -> String {
    v.to_string()
}

fn key(code: KeyCode) -> KeyInput {
    KeyInput { code, ctrl: false }
}

fn ch(c: char) -> KeyInput {
    key(KeyCode::Char(c))
}

fn app() -> App {
    App::new(s("http://mini:8787/state"), Some(s("tok")), AppConfig::default())
}

fn press(a: &mut App, k: KeyInput) -> AppAction {
    a.on_key(k, 0)
}

fn llm(online: bool, running: &[&str]) -> LlmMetrics {
    LlmMetrics {
        ollama_online: online,
        ollama_ps_url: s("http://127.0.0.1:11434/api/ps"),
        running_models: running.iter().map(|m| s(m)).collect(),
        model_count: running.len(),
        error: None,
    }
}

fn history(a: &App) -> Vec<(Option<u64>, String, String)> {
    a.chat_history.iter().map(|m| (m.id, m.role.clone(), m.content.clone())).collect()
}

#[test]
fn new_dashboard_starts_quiet() {
    let a = app();
    assert_eq!(a.active_screen, Screen::Dashboard);
    assert!(!a.show_help && !a.show_navigator && !a.input_mode && !a.should_quit);
    assert_eq!(a.next_chat_id, 1);
    assert_eq!((a.color_picker_extended_idx, a.color_picker_shade_idx), (16, 8));
    assert!(a.theme_draft.border_color == ThemeColor::from_u8(40, 180, 140));
}

#[test]
fn endpoints_next_to_the_state_address() {
    let a = app();
    assert_eq!(a.chat_endpoint(), "http://mini:8787/chat");
    assert_eq!(a.models_endpoint(), "http://mini:8787/models");
    let b = App::new(s("http://h/api//"), None, AppConfig::default());
    assert_eq!(b.chat_endpoint(), "http://h/api/chat");
    let c = ClassicApp::new(s("http://h/state"), None);
    assert_eq!(c.chat_endpoint(), "http://h/chat");
}

#[test]
fn chat_history_is_bounded() {
    let mut a = app();
    for i in 0..(CHAT_HISTORY_MAX + 7) {
        a.push_chat(s("you"), format!("m{i}"));
    }
    assert_eq!(a.chat_history.len(), CHAT_HISTORY_MAX);
    assert_eq!(a.chat_history.back().unwrap().content, format!("m{}", CHAT_HISTORY_MAX + 6));
    assert_eq!(a.chat_history.front().unwrap().content, "m7");
}

#[test]
fn a_reply_fills_its_placeholder() {
    let mut a = app();
    a.selected_model = Some(s("qwen"));
    let (id, req) = a.begin_prompt(s("hello"));
    assert_eq!(id, 1);
    assert_eq!(a.next_chat_id, 2);
    assert_eq!(req.prompt, "hello");
    assert_eq!(req.model, Some(s("qwen")));
    assert_eq!(
        history(&a),
        vec![(None, s("you"), s("hello")), (Some(1), s("assistant"), s("*working*"))]
    );
    let reply = ChatResponse { response: s("hi there"), model: s("qwen"), error: None };
    a.apply_chat_result(chat_job_result(id, Outcome::Answer(reply)));
    assert_eq!(
        history(&a),
        vec![(None, s("you"), s("hello")), (None, s("assistant"), s("hi there"))]
    );
    a.replace_chat_by_id(99, s("error"), s("late"));
    assert_eq!(history(&a).last().unwrap(), &(None, s("error"), s("late")));
}

#[test]
fn chat_replies_from_outcomes() {
    let r = chat_job_result(3, Outcome::Answer(ChatResponse { response: s("  "), model: s("m"), error: None }));
    assert_eq!((r.placeholder_id, r.role.as_str(), r.content.as_str()), (3, "assistant", "(m returned empty response)"));
    let r = chat_job_result(3, Outcome::Answer(ChatResponse { response: s("x"), model: s("m"), error: Some(s("bad")) }));
    assert_eq!((r.role.as_str(), r.content.as_str()), ("error", "bad"));
    let r = chat_job_result(3, Outcome::DecodeFailed(s("eof")));
    assert_eq!(r.content, "decode failed: eof");
    let r = chat_job_result(3, Outcome::BadStatus(s("500 Internal Server Error")));
    assert_eq!(r.content, "chat status 500 Internal Server Error");
    let r = chat_job_result(3, Outcome::RequestFailed(s("timeout")));
    assert_eq!(r.content, "chat request failed: timeout");
}

#[test]
fn status_message_expires_after_five_seconds() {
    let mut a = app();
    assert!(a.visible_status_message(0).is_none());
    a.set_status_message(s("saved"), 1_000);
    assert_eq!(a.visible_status_message(5_000_001_000).map(|x| x.as_str()), Some("saved"));
    assert!(a.visible_status_message(5_000_001_001).is_none());
    assert_eq!(a.visible_status_message(0).map(|x| x.as_str()), Some("saved"));
}

#[test]
fn q_quits_from_anywhere() {
    let mut a = app();
    a.input_mode = true;
    assert!(matches!(press(&mut a, ch('q')), AppAction::Nothing));
    assert!(a.should_quit);
}

#[test]
fn tab_opens_the_navigator_and_closes_the_rest() {
    let mut a = app();
    a.show_help = true;
    a.input_mode = true;
    a.active_screen = Screen::Customize;
    press(&mut a, key(KeyCode::Tab));
    assert!(a.show_navigator && !a.show_help && !a.input_mode);
    assert_eq!(a.navigator_hover_idx, 1);
    press(&mut a, key(KeyCode::Up));
    assert_eq!(a.navigator_hover_idx, 0);
    let act = press(&mut a, key(KeyCode::Enter));
    assert!(matches!(act, AppAction::SelectScreen(Screen::Dashboard)));
    assert!(!a.show_navigator);
}

#[test]
fn esc_closes_one_thing_at_a_time() {
    let mut a = app();
    a.show_help = true;
    a.show_model_selector = true;
    a.input_mode = true;
    press(&mut a, key(KeyCode::Esc));
    assert!(!a.show_help && a.show_model_selector && a.input_mode);
    press(&mut a, key(KeyCode::Esc));
    assert!(!a.show_model_selector && a.input_mode);
    press(&mut a, key(KeyCode::Esc));
    assert!(!a.input_mode);
    a.customize_text_mode = true;
    a.customize_text_buffer = s("draft");
    press(&mut a, key(KeyCode::Esc));
    assert!(!a.customize_text_mode && a.customize_text_buffer.is_empty());
}

#[test]
fn help_swallows_other_keys() {
    let mut a = app();
    press(&mut a, ch('h'));
    assert!(a.show_help);
    assert!(matches!(press(&mut a, ch('r')), AppAction::Nothing));
    assert!(!a.expanded_events);
    assert!(matches!(press(&mut a, ch('h')), AppAction::Nothing));
    assert!(!a.show_help);
}

#[test]
fn dashboard_keys() {
    let mut a = app();
    assert!(matches!(press(&mut a, ch('r')), AppAction::Refresh));
    assert!(matches!(press(&mut a, ch('m')), AppAction::OpenModelSelector));
    press(&mut a, ch('e'));
    assert!(a.expanded_events);
    press(&mut a, key(KeyCode::Up));
    assert_eq!(a.chat_scroll, 0);
    press(&mut a, key(KeyCode::Down));
    assert_eq!(a.chat_scroll, 1);
    a.chat_scroll = usize::MAX;
    press(&mut a, key(KeyCode::Down));
    assert_eq!(a.chat_scroll, usize::MAX);
}

#[test]
fn chat_input_editing_and_sending() {
    let mut a = app();
    press(&mut a, ch('i'));
    assert!(a.input_mode);
    for c in "  hey!".chars() {
        press(&mut a, ch(c));
    }
    press(&mut a, KeyInput { code: KeyCode::Char('x'), ctrl: true });
    press(&mut a, key(KeyCode::Backspace));
    assert_eq!(a.chat_input, "  hey");
    match press(&mut a, key(KeyCode::Enter)) {
        AppAction::SendPrompt(p) => assert_eq!(p, "hey"),
        _ => panic!("expected a prompt"),
    }
    assert!(a.chat_input.is_empty());
    press(&mut a, ch(' '));
    assert!(matches!(press(&mut a, key(KeyCode::Enter)), AppAction::Nothing));
}

#[test]
fn models_answer_opens_the_selector() {
    let mut a = app();
    a.llm = Some(llm(true, &["b"]));
    a.apply_models(Outcome::Answer(ModelsResponse {
        selected_model: s(""),
        running_models: vec![s("b")],
        installed_models: vec![s("a"), s("b"), s("c")],
        error: Some(s("partial")),
    }));
    assert!(a.show_model_selector);
    assert_eq!(a.model_list, vec![s("b"), s("a"), s("c")]);
    assert_eq!(a.model_hover_idx, 0);
    assert_eq!(history(&a), vec![(None, s("system"), s("models warning: partial"))]);
    let rows = a.model_rows();
    assert!(rows[0].hover && rows[0].running && !rows[0].selected);
    assert!(!rows[1].running);
    press(&mut a, key(KeyCode::Down));
    press(&mut a, key(KeyCode::Down));
    press(&mut a, key(KeyCode::Down));
    assert_eq!(a.model_hover_idx, 2);
    match press(&mut a, key(KeyCode::Enter)) {
        AppAction::SelectModel(m) => {
            assert_eq!(m, "c");
            a.select_model(m);
        }
        _ => panic!("expected a model"),
    }
    assert_eq!(a.selected_model, Some(s("c")));
    assert_eq!(history(&a).last().unwrap().2, "selected model: c");
    assert!(a.model_rows()[2].selected);
}

#[test]
fn selector_opens_on_the_agents_model() {
    let mut a = app();
    a.apply_models(Outcome::Answer(ModelsResponse {
        selected_model: s("c"),
        running_models: vec![],
        installed_models: vec![s("a"), s("c")],
        error: None,
    }));
    assert_eq!(a.model_hover_idx, 1);
    assert!(a.chat_history.is_empty());
}

#[test]
fn models_failures_are_reported_in_the_chat() {
    let mut a = app();
    a.apply_models(Outcome::Answer(ModelsResponse {
        selected_model: s("x"),
        running_models: vec![],
        installed_models: vec![],
        error: None,
    }));
    assert!(!a.show_model_selector);
    assert_eq!(history(&a), vec![(None, s("error"), s("no models available from mini-agent /models"))]);
    a.apply_models(Outcome::BadStatus(s("401 Unauthorized")));
    a.apply_models(Outcome::DecodeFailed(s("eof")));
    a.apply_models(Outcome::RequestFailed(s("refused")));
    let texts: Vec<String> = history(&a).into_iter().map(|m| m.2).collect();
    assert_eq!(&texts[1..], &[s("models status 401 Unauthorized"), s("models decode failed: eof"), s("models request failed: refused")]);
}

#[test]
fn polling_outcomes() {
    let mut a = app();
    a.apply_poll(Outcome::RequestFailed(s("refused")));
    assert_eq!(a.last_error, Some(s("request failed: refused")));
    a.apply_poll(Outcome::BadStatus(s("401 Unauthorized")));
    assert_eq!(a.last_error, Some(s("agent returned status 401 Unauthorized")));
    a.apply_poll(Outcome::DecodeFailed(s("missing field")));
    assert_eq!(a.last_error, Some(s("decode failed: missing field")));
    a.apply_poll(Outcome::Answer(llm(true, &["m"])));
    assert_eq!(a.last_error, None);
    assert_eq!(a.effective_model(), Some(s("m")));
    assert!(poll_due(1000) && !poll_due(999));
}

#[test]
fn selecting_a_screen_closes_everything() {
    let mut a = app();
    a.active_screen = Screen::Customize;
    a.theme_draft_live_preview = true;
    a.customize_text_mode = true;
    a.customize_text_buffer = s("x");
    a.show_color_picker = true;
    a.select_screen(Screen::Dashboard);
    assert_eq!(a.active_screen, Screen::Dashboard);
    assert!(!a.theme_draft_live_preview && !a.customize_text_mode && !a.show_color_picker);
    assert!(a.customize_text_buffer.is_empty());
}

fn customize() -> App {
    let mut a = app();
    a.active_screen = Screen::Customize;
    a
}

#[test]
fn customize_sections_and_options() {
    let mut a = customize();
    assert_eq!(a.active_customize_section(), CustomizeSection::Global);
    press(&mut a, ch('['));
    assert_eq!(a.customize_section_idx, 0);
    press(&mut a, ch(']'));
    press(&mut a, ch(']'));
    press(&mut a, ch(']'));
    assert_eq!(a.active_customize_section(), CustomizeSection::Themes);
    press(&mut a, ch('['));
    assert_eq!(a.active_customize_section(), CustomizeSection::Dashboard);
    press(&mut a, key(KeyCode::Down));
    assert_eq!(a.active_dashboard_option(), DashboardOption::AssistantColor);
    press(&mut a, key(KeyCode::Right));
    assert_eq!(a.config.dashboard.assistant_color, "light_red");
    assert!(a.config_dirty);
    press(&mut a, key(KeyCode::Left));
    assert_eq!(a.config.dashboard.assistant_color, "cyan");
    press(&mut a, ch('r'));
    assert_eq!(a.config.dashboard.assistant_color, "cyan");
    for _ in 0..3 {
        press(&mut a, key(KeyCode::Down));
    }
    assert_eq!(a.active_dashboard_option(), DashboardOption::LayoutPreset);
    press(&mut a, key(KeyCode::Enter));
    assert_eq!(a.config.dashboard.layout_preset, DashboardLayoutPreset::LlmColumn);
    press(&mut a, key(KeyCode::Down));
    press(&mut a, key(KeyCode::Right));
    assert!(!a.config.dashboard.show_status);
    press(&mut a, ch('r'));
    assert!(a.config.dashboard.show_status);
    assert!(matches!(press(&mut a, ch('s')), AppAction::SaveConfig));
}

#[test]
fn global_theme_cycles_through_the_themes() {
    let mut a = customize();
    press(&mut a, key(KeyCode::Right));
    assert_eq!(a.config.global.theme, "amber");
    press(&mut a, key(KeyCode::Left));
    press(&mut a, key(KeyCode::Left));
    assert_eq!(a.config.global.theme, "mono");
    press(&mut a, key(KeyCode::Enter));
    assert_eq!(a.config.global.theme, "default");
    a.config.global.theme = s("ocean");
    press(&mut a, ch('r'));
    assert_eq!(a.config.global.theme, "default");
}

#[test]
fn editing_a_label_inline() {
    let mut a = customize();
    press(&mut a, ch(']'));
    press(&mut a, key(KeyCode::Enter));
    assert!(a.customize_text_mode);
    assert_eq!(a.customize_text_buffer, "assistant");
    let rows = a.dashboard_option_rows();
    assert!(rows[0].editing && rows[0].selected);
    assert_eq!(rows[0].value, "assistant_");
    assert_eq!(rows[0].name, "assistant_name");
    for _ in 0.."assistant".len() {
        press(&mut a, key(KeyCode::Backspace));
    }
    for c in " Robo ".chars() {
        press(&mut a, ch(c));
    }
    press(&mut a, key(KeyCode::Enter));
    assert!(!a.customize_text_mode);
    assert_eq!(a.config.dashboard.assistant_name, "Robo");
    press(&mut a, key(KeyCode::Enter));
    for _ in 0..4 {
        press(&mut a, key(KeyCode::Backspace));
    }
    press(&mut a, key(KeyCode::Enter));
    assert_eq!(a.config.dashboard.assistant_name, "Robo");
}

#[test]
fn new_themes_are_saved_by_name() {
    let mut a = customize();
    a.customize_section_idx = 2;
    press(&mut a, ch('t'));
    assert!(a.theme_draft_live_preview);
    assert_eq!(a.visible_status_message(0).map(|x| x.as_str()), Some("new theme live preview: on"));
    a.themes_option_idx = 7;
    assert_eq!(a.active_themes_option(), ThemesOption::SaveNewTheme);
    press(&mut a, key(KeyCode::Enter));
    assert_eq!(a.visible_status_message(0).map(|x| x.as_str()), Some("set new theme name first"));
    assert_eq!(a.config.themes.len(), 0);
    press(&mut a, key(KeyCode::Up));
    press(&mut a, key(KeyCode::Enter));
    for c in "  sunset ".chars() {
        press(&mut a, ch(c));
    }
    press(&mut a, key(KeyCode::Enter));
    assert_eq!(a.theme_new_name, "sunset");
    press(&mut a, key(KeyCode::Down));
    press(&mut a, key(KeyCode::Enter));
    assert_eq!(a.visible_status_message(0).map(|x| x.as_str()), Some("created theme"));
    press(&mut a, key(KeyCode::Enter));
    assert_eq!(a.visible_status_message(0).map(|x| x.as_str()), Some("updated theme"));
    assert_eq!(a.config.themes.keys(), vec![s("sunset")]);
    assert!(a.available_theme_names().contains(&s("sunset")));
}

#[test]
fn colour_picker_applies_to_the_draft() {
    let mut a = customize();
    a.customize_section_idx = 2;
    assert_eq!(a.active_themes_option(), ThemesOption::ColorPick(ThemeColorField::MainText));
    press(&mut a, key(KeyCode::Enter));
    assert!(a.show_color_picker);
    assert_eq!(a.color_picker_field, Some(ThemeColorField::MainText));
    assert_eq!(a.color_picker_row, ColorPickerRow::BaseExtended);
    assert_eq!(a.color_picker_extended_idx, 31);
    let view = a.color_picker_view().unwrap();
    assert_eq!(view.extended_selected, Some(31));
    assert_eq!(view.primary_selected, None);
    assert_eq!(view.name, "ansi-189");
    press(&mut a, key(KeyCode::Right));
    assert_eq!(a.color_picker_extended_idx, 31);
    press(&mut a, key(KeyCode::Left));
    assert_eq!(a.color_picker_extended_idx, 30);
    press(&mut a, key(KeyCode::Enter));
    assert!(!a.show_color_picker);
    assert!(a.theme_draft.main_text_color == ThemeColor::from_u8(215, 175, 255));
    assert!(a.config_dirty);
    press(&mut a, ch('r'));
    assert!(a.theme_draft.main_text_color == ThemeColor::from_u8(255, 255, 255));
    let rows = a.theme_option_rows();
    assert!(matches!(&rows[0], ThemeRow::Color { selected: true, field: ThemeColorField::MainText, .. }));
    assert!(matches!(&rows[7], ThemeRow::Save { selected: false }));
}

#[test]
fn picker_shade_row_names_the_shade() {
    let mut a = customize();
    a.customize_section_idx = 2;
    press(&mut a, key(KeyCode::Enter));
    press(&mut a, key(KeyCode::Down));
    assert_eq!(a.color_picker_row, ColorPickerRow::Shade);
    let view = a.color_picker_view().unwrap();
    assert_eq!(view.shades.len(), 16);
    assert!(view.name.starts_with("ansi-189 shade "));
    press(&mut a, key(KeyCode::Esc));
    assert!(!a.show_color_picker && a.color_picker_field.is_none());
    assert!(a.color_picker_view().is_none());
}

#[test]
fn saving_reports_what_happened() {
    let mut a = app();
    a.config.dashboard.user_color = s("nope");
    a.config_dirty = true;
    let w = a.normalize_before_save();
    assert_eq!(a.config.dashboard.user_color, "green");
    a.finish_save(Ok(s("/home/u/.config/pro-tui/config.toml")), &w, 10);
    assert!(!a.config_dirty);
    assert_eq!(a.visible_status_message(10).map(|x| x.as_str()), Some("saved with normalization: user_color 'nope' invalid -> default"));
    a.finish_save(Ok(s("/p")), &vec![], 11);
    assert_eq!(a.visible_status_message(11).map(|x| x.as_str()), Some("saved config: /p"));
    a.config_dirty = true;
    a.finish_save(Err(s("disk full")), &vec![], 12);
    assert!(a.config_dirty);
    assert_eq!(a.visible_status_message(12).map(|x| x.as_str()), Some("save failed: disk full"));
}

#[test]
fn flow_map_follows_the_chat() {
    let mut a = app();
    let v = a.flow_view();
    assert_eq!((v.input, v.request, v.agent, v.ollama), (FlowMark::Done, FlowMark::Done, FlowMark::Done, FlowMark::Failed));
    assert_eq!(v.status, "status: ollama offline");
    a.llm = Some(llm(true, &[]));
    assert_eq!(a.flow_view().status, "status: healthy");
    a.begin_prompt(s("q"));
    let v = a.flow_view();
    assert_eq!((v.request, v.response, v.render), (FlowMark::Run, FlowMark::Wait, FlowMark::Wait));
    assert_eq!(v.status, "status: waiting response");
    a.apply_chat_result(chat_job_result(1, Outcome::RequestFailed(s("x"))));
    let v = a.flow_view();
    assert_eq!((v.request, v.response), (FlowMark::Failed, FlowMark::Failed));
    assert_eq!(v.status, "status: chat error");
    a.input_mode = true;
    assert_eq!(a.flow_view().input, FlowMark::Act);
    a.last_error = Some(s("down"));
    assert_eq!(a.flow_view().agent, FlowMark::Failed);
    assert_eq!(mark_label(FlowMark::Done, true), "[OK  ]");
    assert_eq!(mark_label(FlowMark::Failed, false), "[ERR]");
    assert_eq!(mark_color(&a.config.modules.flow_map, FlowMark::Run), Some(NamedColor::Yellow));
    a.config.modules.flow_map.colorize = false;
    assert_eq!(mark_color(&a.config.modules.flow_map, FlowMark::Run), None);
}

#[test]
fn chat_rows_show_hint_without_messages() {
    let a = app();
    let rows = a.chat_rows();
    assert_eq!(rows.len(), 1);
    assert_eq!(rows[0].prefix, "No chat messages yet. Press i to type, m to choose model.");
    assert_eq!(rows[0].prefix, EMPTY_CHAT_HINT);
    assert!(rows[0].color.is_none());
    assert!(rows[0].kind.is_none());
    assert!(rows[0].text.is_empty());
}

#[test]
fn chat_rows_use_labels_and_indent() {
    let mut a = app();
    a.config.dashboard.user_name = s("Ünï");
    a.push_chat(s("you"), s("line one\nline two"));
    a.push_chat(s("error"), s(""));
    let rows = a.chat_rows();
    assert_eq!(rows.len(), 3);
    assert_eq!(rows[0].prefix, "Ünï: ");
    assert_eq!(rows[0].color, Some(NamedColor::Green));
    assert_eq!(rows[1].prefix, " ".repeat("Ünï".len() + 2));
    assert_eq!(rows[1].text, "line two");
    assert_eq!(rows[2].prefix, "error:");
    assert!(rows[2].kind.is_none());
    let (label, color) = a.role_display("assistant");
    assert_eq!((label.as_str(), color), ("assistant", Some(NamedColor::Cyan)));
    for i in 0..30 {
        a.push_chat(s("system"), format!("n{i}"));
    }
    let rows = a.chat_rows();
    assert_eq!(rows.len(), 20);
    assert_eq!(rows[0].text, "n10");
}

#[test]
fn llm_summary_lines() {
    let mut a = app();
    assert_eq!(a.llm_text(), vec![s("waiting for first snapshot...")]);
    let mut l = llm(false, &["m1", "m2"]);
    l.error = Some(s("boom"));
    a.llm = Some(l);
    assert_eq!(
        a.llm_text(),
        vec![
            s("ollama endpoint: http://127.0.0.1:11434/api/ps"),
            s("online: false"),
            s("running models: 2"),
            s("selected chat model: m1"),
            s("error: boom"),
        ]
    );
    let nav = a.nav_rows();
    assert!(nav[0].hover && nav[0].active && nav[1].label == "Customize");
    let sections = a.section_rows();
    assert_eq!(sections[2], (false, "New Themes"));
    let g = a.global_option_rows();
    assert_eq!((g[0].name, g[0].value.as_str()), ("theme", "default"));
}

#[test]
fn plain_dashboard_keys_and_chat() {
    let mut c = ClassicApp::new(s("http://h/state"), None);
    assert!(matches!(c.on_key(ch('r')), ClassicAction::Refresh));
    c.on_key(ch('h'));
    assert!(c.show_help);
    c.on_key(ch('h'));
    assert!(!c.show_help);
    c.on_key(ch('i'));
    for x in "hi ".chars() {
        c.on_key(ch(x));
    }
    match c.on_key(key(KeyCode::Enter)) {
        ClassicAction::SendPrompt(p) => {
            let req = c.begin_prompt(p);
            assert_eq!(req.prompt, "hi");
            assert!(req.model.is_none());
        }
        _ => panic!("expected a prompt"),
    }
    c.on_key(ch('q'));
    assert!(!c.should_quit);
    c.on_key(key(KeyCode::Esc));
    c.on_key(ch('q'));
    assert!(c.should_quit);
    c.apply_reply(Outcome::Answer(ChatResponse { response: s("yo"), model: s("m"), error: None }));
    assert_eq!(c.chat_text(), vec![s("you: hi"), s("assistant: yo")]);
    assert_eq!(ClassicApp::new(s("e"), None).chat_text(), vec![s("No chat messages yet. Press i to start typing.")]);
    c.apply_poll(Outcome::Answer(llm(true, &[])));
    assert_eq!(c.llm_text(), vec![s("ollama endpoint: http://127.0.0.1:11434/api/ps"), s("online: true"), s("running models: 0")]);
    let _unused = ChatJobResult { placeholder_id: 0, role: s(""), content: s("") };
}

#[test]
fn changing_the_theme_back_restores_it() {
    let mut a = customize();
    a.config.themes.insert(s("zz-custom"), sys_tui::tui::theme::ThemePaletteConfig::default());
    a.config.global.theme = s("zz-custom");
    press(&mut a, key(KeyCode::Right));
    assert_eq!(a.config.global.theme, "default");
    press(&mut a, key(KeyCode::Left));
    assert_eq!(a.config.global.theme, "zz-custom");
    for name in a.available_theme_names() {
        a.config.global.theme = name.clone();
        press(&mut a, key(KeyCode::Left));
        press(&mut a, key(KeyCode::Right));
        assert_eq!(a.config.global.theme, name);
    }
}

#[test]
fn a_step_and_its_opposite_cancel_for_any_size() {
    let mut a = customize();
    a.customize_section_idx = 1;
    a.dashboard_option_idx = 1;
    a.adjust_selected_customize_value(1_000_000);
    a.adjust_selected_customize_value(-1_000_000);
    assert_eq!(a.config.dashboard.assistant_color, "cyan");
    assert!(a.config_dirty);
    a.dashboard_option_idx = 5;
    a.adjust_selected_customize_value(0);
    assert!(!a.config.dashboard.show_status);
    a.adjust_selected_customize_value(0);
    assert!(a.config.dashboard.show_status);
    a.customize_section_idx = 0;
    a.adjust_selected_customize_value(-999_999);
    a.adjust_selected_customize_value(999_999);
    assert_eq!(a.config.global.theme, "default");
}

#[test]
fn rotating_back_restores_the_name() {
    let items = vec![s("a"), s("b"), s("c")];
    for d in [-7, -1, 0, 1, 5, 1_000_000] {
        for name in &items {
            let there = sys_tui::tui::names::rotate_name_owned(&items, name, d);
            let back = sys_tui::tui::names::rotate_name_owned(&items, &there, -d);
            assert_eq!(&back, name);
        }
    }
    assert_eq!(sys_tui::tui::names::rotate_name_owned(&items, "a", 4), "b");
}

#[test]
fn agent_link_defaults_and_empty_token() {
    assert_eq!(agent_link(&None, &None), (s("http://127.0.0.1:8787/state"), None));
    assert_eq!(agent_link(&None, &Some(s(""))), (s("http://127.0.0.1:8787/state"), None));
    assert_eq!(
        agent_link(&Some(s("http://mini:8787/state")), &Some(s("tok"))),
        (s("http://mini:8787/state"), Some(s("tok")))
    );
}
