use usage_applet::config::Config;
use usage_applet::config::UsageElement;
use usage_applet::metrics;
use usage_applet::metrics::UsageInfo;
use usage_applet::state::Action;
use usage_applet::state::Message;
use usage_applet::state::UsageApp;
use usage_applet::view;
use usage_applet::view::Checkbox;

#[test]
fn default_config_all_disabled() {
    let c = Config::default();
    assert!(!c.cpu_enabled);
    assert!(!c.memory_enabled);
    assert!(!c.swap_enabled);
}

#[test]
fn init_state_is_clean() {
    let c = Config { cpu_enabled: true, memory_enabled: true, swap_enabled: true };
    let app = UsageApp::init(c);
    assert_eq!(app.config, c);
    assert_eq!(app.usage_info, UsageInfo { cpu: 0, memory: 0, swap: 0 });
    assert_eq!(app.popup, None);
}

#[test]
fn memory_usage_75_percent() {
    // total 8_000_000_000, available 2_000_000_000: usage 0.75, shown as "75"
    let r = metrics::usage_centipercent(8_000_000_000, 2_000_000_000);
    assert_eq!(r, Some(7500));
    assert_eq!(view::display_percent(7500), 75);
    assert_eq!(view::percent_text(75), "75");

    // the same reading through the whole tick/update/view pipeline
    let config = Config { cpu_enabled: false, memory_enabled: true, swap_enabled: false };
    let m = metrics::tick_update(&config, &vec![], 8_000_000_000, 2_000_000_000, 0, 0);
    let mut app = UsageApp::init(config);
    let _ = app.update(m, 0);
    let labels = app.view();
    assert_eq!(labels.len(), 1);
    assert_eq!(labels[0].element, UsageElement::Memory);
    assert_eq!(view::percent_text(labels[0].percent), "75");
}

#[test]
fn cpu_mean_25_percent() {
    // per-core 10%, 20%, 30%, 40% (in centipercent): mean 25%, shown as "25"
    let r = metrics::cpu_mean(&vec![1000, 2000, 3000, 4000]);
    assert_eq!(r, Some(2500));
    assert_eq!(view::display_percent(2500), 25);
    assert_eq!(view::percent_text(25), "25");
}

#[test]
fn swap_zero_total_has_no_value() {
    // a zero swap total has no defined usage: the reading is absent
    // and the stored value stays as it was
    assert_eq!(metrics::usage_centipercent(0, 0), None);
    let config = Config { cpu_enabled: false, memory_enabled: false, swap_enabled: true };
    let m = metrics::tick_update(&config, &vec![], 0, 0, 0, 0);
    assert_eq!(m, Message::UsageUpdate { cpu: None, mem: None, swap: None });
    let mut app = UsageApp::init(config);
    app.usage_info.swap = 4200;
    let a = app.update(m, 0);
    assert_eq!(a, Action::Idle);
    assert_eq!(app.usage_info.swap, 4200);
}

#[test]
fn usage_updates_keep_latest_present_value() {
    let mut app = UsageApp::init(Config::default());
    let _ = app.update(Message::UsageUpdate { cpu: Some(100), mem: Some(200), swap: Some(300) }, 0);
    let _ = app.update(Message::UsageUpdate { cpu: None, mem: Some(250), swap: None }, 0);
    let _ = app.update(Message::UsageUpdate { cpu: Some(150), mem: None, swap: None }, 0);
    assert_eq!(app.usage_info, UsageInfo { cpu: 150, memory: 250, swap: 300 });
}

#[test]
fn toggle_twice_restores_and_writes_twice() {
    let start = Config { cpu_enabled: true, memory_enabled: false, swap_enabled: false };
    let mut app = UsageApp::init(start);
    let a1 = app.update(Message::ToggleElement(UsageElement::Memory), 0);
    assert_eq!(
        a1,
        Action::Persist(Config { cpu_enabled: true, memory_enabled: true, swap_enabled: false })
    );
    let a2 = app.update(Message::ToggleElement(UsageElement::Memory), 0);
    assert_eq!(a2, Action::Persist(start));
    assert_eq!(app.config, start);
}

#[test]
fn popup_alternates() {
    let mut app = UsageApp::init(Config::default());
    assert_eq!(app.popup, None);
    let a1 = app.update(Message::TogglePopup, 7);
    assert_eq!(a1, Action::OpenPopup(7));
    assert_eq!(app.popup, Some(7));
    let a2 = app.update(Message::TogglePopup, 9);
    assert_eq!(a2, Action::ClosePopup(7));
    assert_eq!(app.popup, None);
    let a3 = app.update(Message::TogglePopup, 9);
    assert_eq!(a3, Action::OpenPopup(9));
    assert_eq!(app.popup, Some(9));
}

#[test]
fn config_change_replaces_wholesale() {
    let mut app =
        UsageApp::init(Config { cpu_enabled: true, memory_enabled: false, swap_enabled: false });
    let incoming = Config { cpu_enabled: false, memory_enabled: true, swap_enabled: true };
    let a = app.update(Message::UpdateConfig(incoming), 0);
    assert_eq!(a, Action::Idle);
    assert_eq!(app.config, incoming);
}

#[test]
fn panel_renders_exactly_enabled_metrics_in_order() {
    for bits in 0..8u32 {
        let config = Config {
            cpu_enabled: bits & 1 != 0,
            memory_enabled: bits & 2 != 0,
            swap_enabled: bits & 4 != 0,
        };
        let mut app = UsageApp::init(config);
        app.usage_info = UsageInfo { cpu: 2500, memory: 7500, swap: 100 };
        let labels = app.view();
        let mut expected: Vec<(UsageElement, u8)> = vec![];
        if config.cpu_enabled {
            expected.push((UsageElement::Cpu, 25));
        }
        if config.memory_enabled {
            expected.push((UsageElement::Memory, 75));
        }
        if config.swap_enabled {
            expected.push((UsageElement::Swap, 1));
        }
        let got: Vec<(UsageElement, u8)> =
            labels.iter().map(|l| (l.element, l.percent)).collect();
        assert_eq!(got, expected);
    }
}

#[test]
fn popup_view_rows() {
    let app = UsageApp::init(Config { cpu_enabled: true, memory_enabled: false, swap_enabled: true });
    let rows = app.view_window();
    assert_eq!(
        rows,
        vec![
            Checkbox { element: UsageElement::Cpu, checked: true },
            Checkbox { element: UsageElement::Memory, checked: false },
            Checkbox { element: UsageElement::Swap, checked: true },
        ]
    );
    assert_eq!(view::element_label(UsageElement::Cpu), "CPU");
    assert_eq!(view::element_label(UsageElement::Memory), "Memory");
    assert_eq!(view::element_label(UsageElement::Swap), "Swap");
}

#[test]
fn percent_text_digits() {
    assert_eq!(view::percent_text(0), "0");
    assert_eq!(view::percent_text(9), "9");
    assert_eq!(view::percent_text(10), "10");
    assert_eq!(view::percent_text(99), "99");
    assert_eq!(view::percent_text(100), "100");
    assert_eq!(view::percent_text(255), "255");
}

#[test]
fn display_percent_truncates_and_clamps() {
    assert_eq!(view::display_percent(0), 0);
    assert_eq!(view::display_percent(99), 0);
    assert_eq!(view::display_percent(9950), 99);
    assert_eq!(view::display_percent(10000), 100);
    assert_eq!(view::display_percent(60000), 255);
}

#[test]
fn cpu_mean_empty_is_absent() {
    assert_eq!(metrics::cpu_mean(&vec![]), None);
}

#[test]
fn usage_clamps_when_unused_exceeds_total() {
    assert_eq!(metrics::usage_centipercent(100, 100), Some(0));
    assert_eq!(metrics::usage_centipercent(100, 150), Some(0));
    assert_eq!(metrics::usage_centipercent(4, 1), Some(7500));
}

#[test]
fn tick_update_skips_disabled_metrics() {
    let config = Config { cpu_enabled: true, memory_enabled: true, swap_enabled: false };
    let m = metrics::tick_update(&config, &vec![1000, 3000], 1000, 250, 999, 1);
    assert_eq!(m, Message::UsageUpdate { cpu: Some(2000), mem: Some(7500), swap: None });
}

#[test]
fn needs_memory_refresh_covers_swap() {
    let swap_only = Config { cpu_enabled: false, memory_enabled: false, swap_enabled: true };
    let mem_only = Config { cpu_enabled: false, memory_enabled: true, swap_enabled: false };
    let cpu_only = Config { cpu_enabled: true, memory_enabled: false, swap_enabled: false };
    assert!(metrics::needs_memory_refresh(&swap_only));
    assert!(metrics::needs_memory_refresh(&mem_only));
    assert!(!metrics::needs_memory_refresh(&cpu_only));
}

#[test]
fn toggle_each_element() {
    let mut c = Config::default();
    assert!(c.toggle(UsageElement::Cpu));
    assert_eq!(c, Config { cpu_enabled: true, memory_enabled: false, swap_enabled: false });
    assert!(c.toggle(UsageElement::Swap));
    assert!(c.enabled(UsageElement::Swap));
    assert!(!c.enabled(UsageElement::Memory));
    assert!(!c.toggle(UsageElement::Cpu));
    assert!(!c.enabled(UsageElement::Cpu));
}
