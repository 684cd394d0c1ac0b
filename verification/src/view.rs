//! The presenter: a pure function from application state to the
//! widgets' content. No side effects; the shell turns these values
//! into real widgets, raising `Message::TogglePopup` when the panel
//! control is pressed and `Message::ToggleElement` when a checkbox is
//! toggled.

use vstd::prelude::*;
use vstd::string::StringExecFns;

use crate::config::Config;
use crate::config::UsageElement;
use crate::metrics::UsageInfo;
use crate::state::UsageApp;

verus! {

/// One short text label of the panel control.
#[derive(Debug, Clone, Copy, PartialEq, Eq, Structural)]
pub struct PanelLabel {
    pub element: UsageElement,
    /// The whole percent to display, truncated.
    pub percent: u8,
}

/// One checkbox row of the settings popup.
#[derive(Debug, Clone, Copy, PartialEq, Eq, Structural)]
pub struct Checkbox {
    pub element: UsageElement,
    pub checked: bool,
}

/// A stored centipercent value as the whole percent to display,
/// truncated, clamped to the u8 range.
pub open spec fn spec_display_percent(v: u64) -> u8 {
    if v / 100 > 255 {
        255u8
    } else {
        (v / 100) as u8
    }
}

/// Truncate a centipercent value to whole percent for display.
pub fn display_percent(v: u64) -> (r: u8)
    ensures
        r == spec_display_percent(v),
{
    let p: u64 = v / 100;
    if p > 255 {
        255
    } else {
        p as u8
    }
}

/// The decimal digit character for `d` in 0..10.
pub open spec fn spec_digit(d: int) -> char {
    if d == 0 {
        '0'
    } else if d == 1 {
        '1'
    } else if d == 2 {
        '2'
    } else if d == 3 {
        '3'
    } else if d == 4 {
        '4'
    } else if d == 5 {
        '5'
    } else if d == 6 {
        '6'
    } else if d == 7 {
        '7'
    } else if d == 8 {
        '8'
    } else {
        '9'
    }
}

/// The decimal rendering of `n` in 0..256, without leading zeros.
pub open spec fn spec_percent_chars(n: int) -> Seq<char> {
    if n < 10 {
        seq![spec_digit(n)]
    } else if n < 100 {
        seq![spec_digit(n / 10), spec_digit(n % 10)]
    } else {
        seq![spec_digit(n / 100), spec_digit((n / 10) % 10), spec_digit(n % 10)]
    }
}

/// The one-character string for a single decimal digit.
fn digit_str(d: u8) -> (r: &'static str)
    requires
        d < 10,
    ensures
        r@ == seq![spec_digit(d as int)],
{
    proof {
        reveal_strlit("0");
        reveal_strlit("1");
        reveal_strlit("2");
        reveal_strlit("3");
        reveal_strlit("4");
        reveal_strlit("5");
        reveal_strlit("6");
        reveal_strlit("7");
        reveal_strlit("8");
        reveal_strlit("9");
        assert("0"@ =~= seq!['0']);
        assert("1"@ =~= seq!['1']);
        assert("2"@ =~= seq!['2']);
        assert("3"@ =~= seq!['3']);
        assert("4"@ =~= seq!['4']);
        assert("5"@ =~= seq!['5']);
        assert("6"@ =~= seq!['6']);
        assert("7"@ =~= seq!['7']);
        assert("8"@ =~= seq!['8']);
        assert("9"@ =~= seq!['9']);
    }
    match d {
        0 => "0",
        1 => "1",
        2 => "2",
        3 => "3",
        4 => "4",
        5 => "5",
        6 => "6",
        7 => "7",
        8 => "8",
        _ => "9",
    }
}

/// Render a percent value as its decimal text, e.g. 75 as "75".
pub fn percent_text(p: u8) -> (r: String)
    ensures
        r@ == spec_percent_chars(p as int),
{
    if p >= 100 {
        let s = String::from_str(digit_str(p / 100));
        let s = s.concat(digit_str((p / 10) % 10));
        let s = s.concat(digit_str(p % 10));
        proof {
            assert(s@ =~= spec_percent_chars(p as int));
        }
        s
    } else if p >= 10 {
        let s = String::from_str(digit_str(p / 10));
        let s = s.concat(digit_str(p % 10));
        proof {
            assert(s@ =~= spec_percent_chars(p as int));
        }
        s
    } else {
        let s = String::from_str(digit_str(p));
        proof {
            assert(s@ =~= spec_percent_chars(p as int));
        }
        s
    }
}

/// The checkbox caption of a metric.
pub open spec fn spec_element_label(e: UsageElement) -> Seq<char> {
    match e {
        UsageElement::Cpu => "CPU"@,
        UsageElement::Memory => "Memory"@,
        UsageElement::Swap => "Swap"@,
    }
}

/// The caption text shown beside a metric's checkbox.
pub fn element_label(e: UsageElement) -> (r: &'static str)
    ensures
        r@ == spec_element_label(e),
{
    match e {
        UsageElement::Cpu => "CPU",
        UsageElement::Memory => "Memory",
        UsageElement::Swap => "Swap",
    }
}

/// The panel's labels: one per enabled metric, in the fixed order
/// CPU, Memory, Swap.
pub open spec fn spec_panel(c: Config, u: UsageInfo) -> Seq<PanelLabel> {
    (if c.cpu_enabled {
        seq![PanelLabel { element: UsageElement::Cpu, percent: spec_display_percent(u.cpu) }]
    } else {
        Seq::<PanelLabel>::empty()
    }) + (if c.memory_enabled {
        seq![PanelLabel { element: UsageElement::Memory, percent: spec_display_percent(u.memory) }]
    } else {
        Seq::<PanelLabel>::empty()
    }) + (if c.swap_enabled {
        seq![PanelLabel { element: UsageElement::Swap, percent: spec_display_percent(u.swap) }]
    } else {
        Seq::<PanelLabel>::empty()
    })
}

/// The metrics the panel renders, in order.
pub open spec fn panel_elements(c: Config, u: UsageInfo) -> Seq<UsageElement> {
    spec_panel(c, u).map_values(|l: PanelLabel| l.element)
}

/// The metrics enabled in `c`, in the fixed order CPU, Memory, Swap.
pub open spec fn spec_enabled_elements(c: Config) -> Seq<UsageElement> {
    (if c.cpu_enabled {
        seq![UsageElement::Cpu]
    } else {
        Seq::<UsageElement>::empty()
    }) + (if c.memory_enabled {
        seq![UsageElement::Memory]
    } else {
        Seq::<UsageElement>::empty()
    }) + (if c.swap_enabled {
        seq![UsageElement::Swap]
    } else {
        Seq::<UsageElement>::empty()
    })
}

/// Law: for every flag combination, the panel renders exactly the
/// enabled metrics — one label each, in the fixed order CPU, Memory,
/// Swap — and a metric appears among the rendered labels if and only
/// if its flag is set.
pub proof fn lemma_panel_shows_enabled(c: Config, u: UsageInfo)
    ensures
        panel_elements(c, u) == spec_enabled_elements(c),
        forall|e: UsageElement| #[trigger] panel_elements(c, u).contains(e) <==> c.spec_enabled(e),
{
    let elems = panel_elements(c, u);
    assert(elems =~= spec_enabled_elements(c));
    assert forall|e: UsageElement| #[trigger] elems.contains(e) <==> c.spec_enabled(e) by {
        if c.spec_enabled(e) {
            match e {
                UsageElement::Cpu => {
                    assert(elems[0] == UsageElement::Cpu);
                    assert(elems.contains(e));
                },
                UsageElement::Memory => {
                    let i: int = if c.cpu_enabled {
                        1
                    } else {
                        0
                    };
                    assert(elems[i] == UsageElement::Memory);
                    assert(elems.contains(e));
                },
                UsageElement::Swap => {
                    let i: int = (if c.cpu_enabled {
                        1int
                    } else {
                        0int
                    }) + (if c.memory_enabled {
                        1int
                    } else {
                        0int
                    });
                    assert(elems[i] == UsageElement::Swap);
                    assert(elems.contains(e));
                },
            }
        }
        if elems.contains(e) {
            let i = choose|i: int| 0 <= i < elems.len() && elems[i] == e;
            assert(c.spec_enabled(elems[i]));
        }
    }
}

impl UsageApp {
    /// The panel view: one label per enabled metric, in the fixed
    /// order CPU, Memory, Swap, each showing the whole percent of the
    /// latest stored value.
    pub fn view(&self) -> (labels: Vec<PanelLabel>)
        ensures
            labels@ == spec_panel(self.config, self.usage_info),
    {
        let mut labels: Vec<PanelLabel> = Vec::new();
        if self.config.cpu_enabled {
            labels.push(
                PanelLabel {
                    element: UsageElement::Cpu,
                    percent: display_percent(self.usage_info.cpu),
                },
            );
        }
        if self.config.memory_enabled {
            labels.push(
                PanelLabel {
                    element: UsageElement::Memory,
                    percent: display_percent(self.usage_info.memory),
                },
            );
        }
        if self.config.swap_enabled {
            labels.push(
                PanelLabel {
                    element: UsageElement::Swap,
                    percent: display_percent(self.usage_info.swap),
                },
            );
        }
        proof {
            assert(labels@ =~= spec_panel(self.config, self.usage_info));
        }
        labels
    }

    /// The popup view: one checkbox per metric, in the fixed order,
    /// checked exactly when the metric's flag is set. The shell
    /// renders it only while a popup id is tracked.
    pub fn view_window(&self) -> (rows: Vec<Checkbox>)
        ensures
            rows@ == seq![
                Checkbox { element: UsageElement::Cpu, checked: self.config.cpu_enabled },
                Checkbox { element: UsageElement::Memory, checked: self.config.memory_enabled },
                Checkbox { element: UsageElement::Swap, checked: self.config.swap_enabled },
            ],
    {
        let mut rows: Vec<Checkbox> = Vec::new();
        rows.push(Checkbox { element: UsageElement::Cpu, checked: self.config.cpu_enabled });
        rows.push(Checkbox { element: UsageElement::Memory, checked: self.config.memory_enabled });
        rows.push(Checkbox { element: UsageElement::Swap, checked: self.config.swap_enabled });
        proof {
            assert(rows@ =~= seq![
                Checkbox { element: UsageElement::Cpu, checked: self.config.cpu_enabled },
                Checkbox { element: UsageElement::Memory, checked: self.config.memory_enabled },
                Checkbox { element: UsageElement::Swap, checked: self.config.swap_enabled },
            ]);
        }
        rows
    }
}

} // verus!
