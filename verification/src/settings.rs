//! Settings as a tree of named entries, the shape in which a declarative
//! configuration document is read, and their application to the
//! configuration.

use crate::config::{
    style_named, preset_named, violation, AnimationStyle, Config, ConfigText, ThemeConfig,
    ThemeText, default_config,
};
use crate::text::{lowercase, same_text};
use vstd::prelude::*;

verus! {

/// The value of an entry, as far as settings tell values apart.
#[derive(Debug, Clone)]
pub enum SettingValue {
    /// A truth value.
    Bool(bool),
    /// A string.
    Text(String),
    /// A whole number.
    Integer(i64),
    /// Anything else: a fraction, or null.
    Other,
}

/// The value of an entry, with its text as a sequence of characters.
pub enum ValueText {
    Bool(bool),
    Text(Seq<char>),
    Integer(i64),
    Other,
}

impl View for SettingValue {
    type V = ValueText;

    open spec fn view(&self) -> ValueText {
        match self {
            SettingValue::Bool(b) => ValueText::Bool(*b),
            SettingValue::Text(t) => ValueText::Text(t@),
            SettingValue::Integer(i) => ValueText::Integer(*i),
            SettingValue::Other => ValueText::Other,
        }
    }
}

/// A named entry with its first argument, if it has one.
#[derive(Debug, Clone)]
pub struct Entry {
    /// Name of the entry.
    pub name: String,
    /// Its first argument.
    pub argument: Option<SettingValue>,
}

/// An entry as text.
pub struct EntryText {
    pub name: Seq<char>,
    pub argument: Option<ValueText>,
}

impl View for Entry {
    type V = EntryText;

    open spec fn view(&self) -> EntryText {
        EntryText {
            name: self.name@,
            argument: match self.argument {
                Some(value) => Some(value@),
                None => None,
            },
        }
    }
}

/// An entry of the top level with the entries nested in it.
#[derive(Debug, Clone)]
pub struct Section {
    /// The entry itself.
    pub entry: Entry,
    /// The entries nested in it, in order.
    pub children: Vec<Entry>,
}

/// A section as text.
pub struct SectionText {
    pub entry: EntryText,
    pub children: Seq<EntryText>,
}

/// Entries as text.
pub open spec fn entries_text(entries: Seq<Entry>) -> Seq<EntryText> {
    entries.map_values(|e: Entry| e@)
}

impl View for Section {
    type V = SectionText;

    open spec fn view(&self) -> SectionText {
        SectionText { entry: self.entry@, children: entries_text(self.children@) }
    }
}

/// Sections as text.
pub open spec fn sections_text(sections: Seq<Section>) -> Seq<SectionText> {
    sections.map_values(|s: Section| s@)
}

/// The truth value of an argument; `default` where the argument is no truth
/// value.
pub open spec fn bool_or(argument: ValueText, default: bool) -> bool {
    match argument {
        ValueText::Bool(b) => b,
        _ => default,
    }
}

/// A number held to the range from `low` to `high`.
pub open spec fn clamped(value: int, low: int, high: int) -> int {
    if value < low {
        low
    } else if value > high {
        high
    } else {
        value
    }
}

/// The theme after one entry of the `theme` section was applied: the four
/// notification colours can be set, each by a string.
pub open spec fn themed(theme: ThemeText, entry: EntryText) -> ThemeText {
    match entry.argument {
        Some(ValueText::Text(color)) => {
            if entry.name == "success_color"@ {
                ThemeText { success_color: color, ..theme }
            } else if entry.name == "error_color"@ {
                ThemeText { error_color: color, ..theme }
            } else if entry.name == "warning_color"@ {
                ThemeText { warning_color: color, ..theme }
            } else if entry.name == "info_color"@ {
                ThemeText { info_color: color, ..theme }
            } else {
                theme
            }
        },
        _ => theme,
    }
}

/// The settings after one entry of the `animation` section was applied:
/// `enabled` by a truth value, `style` by name, `speed` held to 1..100 and
/// `cycles` held to 1..10.
pub open spec fn animated(config: ConfigText, entry: EntryText) -> ConfigText {
    match entry.argument {
        Some(argument) => {
            if entry.name == "enabled"@ {
                ConfigText {
                    animation: crate::config::AnimationConfig {
                        enabled: bool_or(argument, true),
                        ..config.animation
                    },
                    ..config
                }
            } else if entry.name == "style"@ {
                match argument {
                    ValueText::Text(name) => ConfigText {
                        animation: crate::config::AnimationConfig {
                            style: style_named(lowercase(name)),
                            ..config.animation
                        },
                        ..config
                    },
                    _ => config,
                }
            } else if entry.name == "speed"@ {
                match argument {
                    ValueText::Integer(speed) => ConfigText {
                        animation: crate::config::AnimationConfig {
                            speed: clamped(speed as int, 1, 100) as u8,
                            ..config.animation
                        },
                        ..config
                    },
                    _ => config,
                }
            } else if entry.name == "cycles"@ {
                match argument {
                    ValueText::Integer(cycles) => ConfigText {
                        animation: crate::config::AnimationConfig {
                            cycles: clamped(cycles as int, 1, 10) as u8,
                            ..config.animation
                        },
                        ..config
                    },
                    _ => config,
                }
            } else {
                config
            }
        },
        None => config,
    }
}

/// The settings after one entry of the `accessibility` section was applied.
/// Reduced motion switches animations off.
pub open spec fn accessed(config: ConfigText, entry: EntryText) -> ConfigText {
    match entry.argument {
        Some(argument) => {
            if entry.name == "high_contrast"@ {
                ConfigText {
                    accessibility: crate::config::AccessibilityConfig {
                        high_contrast: bool_or(argument, false),
                        ..config.accessibility
                    },
                    ..config
                }
            } else if entry.name == "reduced_motion"@ {
                ConfigText {
                    accessibility: crate::config::AccessibilityConfig {
                        reduced_motion: bool_or(argument, false),
                        ..config.accessibility
                    },
                    animation: crate::config::AnimationConfig {
                        enabled: config.animation.enabled && !bool_or(argument, false),
                        ..config.animation
                    },
                    ..config
                }
            } else {
                config
            }
        },
        None => config,
    }
}

/// The theme after the entries of the `theme` section were applied in order.
pub open spec fn themed_all(theme: ThemeText, entries: Seq<EntryText>) -> ThemeText
    decreases entries.len(),
{
    if entries.len() == 0 {
        theme
    } else {
        themed(themed_all(theme, entries.drop_last()), entries.last())
    }
}

/// The settings after the entries of the `animation` section were applied in
/// order.
pub open spec fn animated_all(config: ConfigText, entries: Seq<EntryText>) -> ConfigText
    decreases entries.len(),
{
    if entries.len() == 0 {
        config
    } else {
        animated(animated_all(config, entries.drop_last()), entries.last())
    }
}

/// The settings after the entries of the `accessibility` section were
/// applied in order.
pub open spec fn accessed_all(config: ConfigText, entries: Seq<EntryText>) -> ConfigText
    decreases entries.len(),
{
    if entries.len() == 0 {
        config
    } else {
        accessed(accessed_all(config, entries.drop_last()), entries.last())
    }
}

/// The settings after the `theme` section was applied: the preset named by
/// its argument, if that is a string, then the colours of its entries.
pub open spec fn theme_sectioned(config: ConfigText, section: SectionText) -> ConfigText {
    let preset = match section.entry.argument {
        Some(ValueText::Text(preset_name)) => preset_named(lowercase(preset_name)),
        _ => config.theme,
    };
    ConfigText { theme: themed_all(preset, section.children), ..config }
}

/// The settings after one section was applied. A section has effect by its
/// name; sections of other names are passed over. A value of the wrong kind
/// leaves its setting as it is, except that a switch given something other
/// than a truth value returns to its default.
pub open spec fn sectioned(config: ConfigText, section: SectionText) -> ConfigText {
    let name = section.entry.name;
    let argument = section.entry.argument;
    if name == "enabled"@ {
        match argument {
            Some(value) => ConfigText { enabled: bool_or(value, true), ..config },
            None => config,
        }
    } else if name == "theme"@ {
        theme_sectioned(config, section)
    } else if name == "animation"@ {
        animated_all(config, section.children)
    } else if name == "accessibility"@ {
        accessed_all(config, section.children)
    } else if name == "notification_timeout_ms"@ {
        match argument {
            Some(ValueText::Integer(timeout)) => ConfigText {
                notification_timeout_ms: clamped(timeout as int, 1000, u64::MAX as int) as u64,
                ..config
            },
            _ => config,
        }
    } else if name == "queue_max_size"@ {
        match argument {
            Some(ValueText::Integer(size)) => ConfigText {
                queue_max_size: clamped(size as int, 1, usize::MAX as int) as usize,
                ..config
            },
            _ => config,
        }
    } else {
        config
    }
}

/// The settings after the sections were applied in order.
pub open spec fn sectioned_all(config: ConfigText, sections: Seq<SectionText>) -> ConfigText
    decreases sections.len(),
{
    if sections.len() == 0 {
        config
    } else {
        sectioned(sectioned_all(config, sections.drop_last()), sections.last())
    }
}

/// Applying an entry of the `animation` or `accessibility` section, or a
/// section, to valid settings leaves them valid: numbers are held to their
/// ranges as they are read.
pub proof fn lemma_section_keeps_valid(config: ConfigText, section: SectionText)
    requires
        violation(config) is None,
    ensures
        violation(sectioned(config, section)) is None,
{
    lemma_animated_keeps_valid(config, section.children);
    lemma_accessed_keeps_valid(config, section.children);
}

proof fn lemma_animated_keeps_valid(config: ConfigText, entries: Seq<EntryText>)
    requires
        violation(config) is None,
    ensures
        violation(animated_all(config, entries)) is None,
    decreases entries.len(),
{
    if entries.len() > 0 {
        lemma_animated_keeps_valid(config, entries.drop_last());
    }
}

proof fn lemma_accessed_keeps_valid(config: ConfigText, entries: Seq<EntryText>)
    requires
        violation(config) is None,
    ensures
        violation(accessed_all(config, entries)) is None,
    decreases entries.len(),
{
    if entries.len() > 0 {
        lemma_accessed_keeps_valid(config, entries.drop_last());
    }
}

/// Whatever the sections, the settings that they configure are valid.
pub proof fn lemma_sections_keep_valid(sections: Seq<SectionText>)
    ensures
        violation(sectioned_all(default_config(), sections)) is None,
    decreases sections.len(),
{
    if sections.len() > 0 {
        lemma_sections_keep_valid(sections.drop_last());
        lemma_section_keeps_valid(
            sectioned_all(default_config(), sections.drop_last()),
            sections.last(),
        );
    }
}

fn truth_or(argument: &SettingValue, default: bool) -> (value: bool)
    ensures
        value == bool_or(argument@, default),
{
    match argument {
        SettingValue::Bool(b) => *b,
        _ => default,
    }
}

fn clamp(value: i64, low: i64, high: i64) -> (held: i64)
    requires
        low <= high,
    ensures
        held == clamped(value as int, low as int, high as int),
{
    if value < low {
        low
    } else if value > high {
        high
    } else {
        value
    }
}

fn apply_theme_entry(theme: &mut ThemeConfig, entry: &Entry)
    ensures
        final(theme)@ == themed(old(theme)@, entry@),
{
    if let Some(SettingValue::Text(color)) = &entry.argument {
        if same_text(entry.name.as_str(), "success_color") {
            theme.success_color = color.clone();
        } else if same_text(entry.name.as_str(), "error_color") {
            theme.error_color = color.clone();
        } else if same_text(entry.name.as_str(), "warning_color") {
            theme.warning_color = color.clone();
        } else if same_text(entry.name.as_str(), "info_color") {
            theme.info_color = color.clone();
        }
    }
}

fn apply_animation_entry(config: &mut Config, entry: &Entry)
    ensures
        final(config)@ == animated(old(config)@, entry@),
{
    if let Some(argument) = &entry.argument {
        if same_text(entry.name.as_str(), "enabled") {
            config.animation.enabled = truth_or(argument, true);
        } else if same_text(entry.name.as_str(), "style") {
            if let SettingValue::Text(name) = argument {
                config.animation.style = AnimationStyle::from_str(name.as_str());
            }
        } else if same_text(entry.name.as_str(), "speed") {
            if let SettingValue::Integer(speed) = argument {
                config.animation.speed = clamp(*speed, 1, 100) as u8;
            }
        } else if same_text(entry.name.as_str(), "cycles") {
            if let SettingValue::Integer(cycles) = argument {
                config.animation.cycles = clamp(*cycles, 1, 10) as u8;
            }
        }
    }
}

fn apply_accessibility_entry(config: &mut Config, entry: &Entry)
    ensures
        final(config)@ == accessed(old(config)@, entry@),
{
    if let Some(argument) = &entry.argument {
        if same_text(entry.name.as_str(), "high_contrast") {
            config.accessibility.high_contrast = truth_or(argument, false);
        } else if same_text(entry.name.as_str(), "reduced_motion") {
            config.accessibility.reduced_motion = truth_or(argument, false);
            if config.accessibility.reduced_motion {
                config.animation.enabled = false;
            }
        }
    }
}

fn apply_theme_section(config: &mut Config, section: &Section)
    ensures
        final(config)@ == theme_sectioned(old(config)@, section@),
{
    if let Some(SettingValue::Text(name)) = &section.entry.argument {
        config.theme = ThemeConfig::from_preset(name.as_str());
    }
    let ghost preset = config.theme@;
    let ghost children = entries_text(section.children@);
    let mut i: usize = 0;
    assert(children.take(0) =~= Seq::<EntryText>::empty());
    while i < section.children.len()
        invariant
            i <= section.children.len(),
            children == entries_text(section.children@),
            config@ == (ConfigText {
                theme: themed_all(preset, children.take(i as int)),
                ..old(config)@
            }),
        decreases section.children.len() - i,
    {
        assert(children.take(i as int + 1).drop_last() =~= children.take(i as int));
        apply_theme_entry(&mut config.theme, &section.children[i]);
        i += 1;
    }
    assert(children.take(children.len() as int) =~= children);
}

fn apply_animation_section(config: &mut Config, section: &Section)
    ensures
        final(config)@ == animated_all(old(config)@, section@.children),
{
    let ghost children = entries_text(section.children@);
    let mut i: usize = 0;
    assert(children.take(0) =~= Seq::<EntryText>::empty());
    while i < section.children.len()
        invariant
            i <= section.children.len(),
            children == entries_text(section.children@),
            config@ == animated_all(old(config)@, children.take(i as int)),
        decreases section.children.len() - i,
    {
        assert(children.take(i as int + 1).drop_last() =~= children.take(i as int));
        apply_animation_entry(config, &section.children[i]);
        i += 1;
    }
    assert(children.take(children.len() as int) =~= children);
}

fn apply_accessibility_section(config: &mut Config, section: &Section)
    ensures
        final(config)@ == accessed_all(old(config)@, section@.children),
{
    let ghost children = entries_text(section.children@);
    let mut i: usize = 0;
    assert(children.take(0) =~= Seq::<EntryText>::empty());
    while i < section.children.len()
        invariant
            i <= section.children.len(),
            children == entries_text(section.children@),
            config@ == accessed_all(old(config)@, children.take(i as int)),
        decreases section.children.len() - i,
    {
        assert(children.take(i as int + 1).drop_last() =~= children.take(i as int));
        apply_accessibility_entry(config, &section.children[i]);
        i += 1;
    }
    assert(children.take(children.len() as int) =~= children);
}

/// Applies one section to the settings.
pub fn apply_section(config: &mut Config, section: &Section)
    ensures
        final(config)@ == sectioned(old(config)@, section@),
{
    let name = section.entry.name.as_str();
    if same_text(name, "enabled") {
        if let Some(value) = &section.entry.argument {
            config.enabled = truth_or(value, true);
        }
    } else if same_text(name, "theme") {
        apply_theme_section(config, section);
    } else if same_text(name, "animation") {
        apply_animation_section(config, section);
    } else if same_text(name, "accessibility") {
        apply_accessibility_section(config, section);
    } else if same_text(name, "notification_timeout_ms") {
        if let Some(SettingValue::Integer(timeout)) = &section.entry.argument {
            config.notification_timeout_ms = clamp(*timeout, 1000, i64::MAX) as u64;
        }
    } else if same_text(name, "queue_max_size") {
        if let Some(SettingValue::Integer(size)) = &section.entry.argument {
            let held: i64 = clamp(*size, 1, i64::MAX);
            config.queue_max_size = if held as u64 > usize::MAX as u64 {
                usize::MAX
            } else {
                held as usize
            };
        }
    }
}

impl Config {
    /// The settings that a sequence of sections configures: the defaults
    /// with the sections applied in order. They are checked by
    /// [`Config::validate`], and always pass.
    pub fn from_settings(sections: &Vec<Section>) -> (outcome: Result<Config, String>)
        ensures
            outcome matches Ok(config) && config@ == sectioned_all(
                default_config(),
                sections_text(sections@),
            ),
    {
        let mut config = Config::default();
        let ghost all = sections_text(sections@);
        let mut i: usize = 0;
        assert(all.take(0) =~= Seq::<SectionText>::empty());
        while i < sections.len()
            invariant
                i <= sections.len(),
                all == sections_text(sections@),
                config@ == sectioned_all(default_config(), all.take(i as int)),
            decreases sections.len() - i,
        {
            assert(all.take(i as int + 1).drop_last() =~= all.take(i as int));
            apply_section(&mut config, &sections[i]);
            i += 1;
        }
        assert(all.take(all.len() as int) =~= all);
        proof {
            lemma_sections_keep_valid(all);
        }
        match config.validate() {
            Ok(_) => Ok(config),
            Err(message) => Err(message),
        }
    }
}

} // verus!
