//! Configuration of the engine: theme colours, animation settings,
//! accessibility switches and the limits of the queue.

use crate::text::{
    bool_of, lowercase, parse_bool, parse_unsigned, same_text, to_lowercase, unsigned_of,
};
use vstd::prelude::*;

verus! {

/// How a notification animates.
#[derive(Debug, Clone, Copy, PartialEq, Eq, Structural)]
pub enum AnimationStyle {
    /// Smooth oscillation between dark and full brightness.
    Pulse,
    /// Sharp blink: on, dim, on.
    Flash,
    /// Linear decay over the whole animation.
    Fade,
    /// One soft hump per cycle.
    Breathe,
    /// No animation: brightness stays full.
    Static,
}

/// The style that a lower-case name denotes. Unknown names denote `Pulse`.
pub open spec fn style_named(name: Seq<char>) -> AnimationStyle {
    if name == "pulse"@ {
        AnimationStyle::Pulse
    } else if name == "flash"@ {
        AnimationStyle::Flash
    } else if name == "fade"@ {
        AnimationStyle::Fade
    } else if name == "breathe"@ {
        AnimationStyle::Breathe
    } else if name == "none"@ || name == "disabled"@ {
        AnimationStyle::Static
    } else {
        AnimationStyle::Pulse
    }
}

impl AnimationStyle {
    /// Reads a style from its name, in any case.
    pub fn from_str(s: &str) -> (style: AnimationStyle)
        ensures
            style == style_named(lowercase(s@)),
    {
        let lower = to_lowercase(s);
        AnimationStyle::from_name(lower.as_str())
    }

    /// Reads a style from its lower-case name: `pulse`, `flash`, `fade`,
    /// `breathe`, `none` or `disabled`. Any other name gives `Pulse`.
    pub fn from_name(name: &str) -> (style: AnimationStyle)
        ensures
            style == style_named(name@),
    {
        if same_text(name, "pulse") {
            AnimationStyle::Pulse
        } else if same_text(name, "flash") {
            AnimationStyle::Flash
        } else if same_text(name, "fade") {
            AnimationStyle::Fade
        } else if same_text(name, "breathe") {
            AnimationStyle::Breathe
        } else if same_text(name, "none") || same_text(name, "disabled") {
            AnimationStyle::Static
        } else {
            AnimationStyle::Pulse
        }
    }
}

impl Default for AnimationStyle {
    fn default() -> (style: AnimationStyle)
        ensures
            style == AnimationStyle::Pulse,
    {
        AnimationStyle::Pulse
    }
}

/// Animation settings.
#[derive(Debug, Clone, Copy, PartialEq, Eq, Structural)]
pub struct AnimationConfig {
    /// Whether animations run at all.
    pub enabled: bool,
    /// The style of new animations.
    pub style: AnimationStyle,
    /// Speed from 1 to 100; higher is faster.
    pub speed: u8,
    /// Number of cycles in one animation.
    pub cycles: u8,
    /// Nominal duration in milliseconds.
    pub duration_ms: u64,
}

impl Default for AnimationConfig {
    fn default() -> (config: AnimationConfig)
        ensures
            config == (AnimationConfig {
                enabled: true,
                style: AnimationStyle::Pulse,
                speed: 50,
                cycles: 3,
                duration_ms: 2000,
            }),
    {
        AnimationConfig {
            enabled: true,
            style: AnimationStyle::Pulse,
            speed: 50,
            cycles: 3,
            duration_ms: 2000,
        }
    }
}

/// Accessibility switches.
#[derive(Debug, Clone, Copy, PartialEq, Eq, Structural)]
pub struct AccessibilityConfig {
    /// Raise the contrast of every colour.
    pub high_contrast: bool,
    /// Switch animations off.
    pub reduced_motion: bool,
    /// Announce notifications to a screen reader.
    pub screen_reader: bool,
    /// Mark notification kinds by a pattern as well as by colour.
    pub use_patterns: bool,
}

impl Default for AccessibilityConfig {
    fn default() -> (config: AccessibilityConfig)
        ensures
            config == (AccessibilityConfig {
                high_contrast: false,
                reduced_motion: false,
                screen_reader: false,
                use_patterns: true,
            }),
    {
        AccessibilityConfig {
            high_contrast: false,
            reduced_motion: false,
            screen_reader: false,
            use_patterns: true,
        }
    }
}

/// The colours of a theme, each written as `#rrggbb`.
#[derive(Debug)]
pub struct ThemeConfig {
    /// Name of the theme.
    pub name: String,
    /// Colour of success notifications.
    pub success_color: String,
    /// Colour of error notifications.
    pub error_color: String,
    /// Colour of warnings.
    pub warning_color: String,
    /// Colour of informational notifications.
    pub info_color: String,
    /// Background of the status bar.
    pub background_color: String,
    /// Colour of text.
    pub foreground_color: String,
    /// Colour of highlights.
    pub highlight_color: String,
    /// Colour of muted text.
    pub dimmed_color: String,
}

/// A theme as text: the model in which themes are compared.
pub struct ThemeText {
    pub name: Seq<char>,
    pub success_color: Seq<char>,
    pub error_color: Seq<char>,
    pub warning_color: Seq<char>,
    pub info_color: Seq<char>,
    pub background_color: Seq<char>,
    pub foreground_color: Seq<char>,
    pub highlight_color: Seq<char>,
    pub dimmed_color: Seq<char>,
}

impl View for ThemeConfig {
    type V = ThemeText;

    open spec fn view(&self) -> ThemeText {
        ThemeText {
            name: self.name@,
            success_color: self.success_color@,
            error_color: self.error_color@,
            warning_color: self.warning_color@,
            info_color: self.info_color@,
            background_color: self.background_color@,
            foreground_color: self.foreground_color@,
            highlight_color: self.highlight_color@,
            dimmed_color: self.dimmed_color@,
        }
    }
}

/// The default theme.
pub open spec fn default_theme() -> ThemeText {
    ThemeText {
        name: "default"@,
        success_color: "#22c55e"@,
        error_color: "#ef4444"@,
        warning_color: "#eab308"@,
        info_color: "#3b82f6"@,
        background_color: "#1e1e2e"@,
        foreground_color: "#cdd6f4"@,
        highlight_color: "#89b4fa"@,
        dimmed_color: "#6c7086"@,
    }
}

/// The Dracula theme.
pub open spec fn dracula_theme() -> ThemeText {
    ThemeText {
        name: "dracula"@,
        success_color: "#50fa7b"@,
        error_color: "#ff5555"@,
        warning_color: "#f1fa8c"@,
        info_color: "#8be9fd"@,
        background_color: "#282a36"@,
        foreground_color: "#f8f8f2"@,
        highlight_color: "#bd93f9"@,
        dimmed_color: "#6272a4"@,
    }
}

/// The Nord theme.
pub open spec fn nord_theme() -> ThemeText {
    ThemeText {
        name: "nord"@,
        success_color: "#a3be8c"@,
        error_color: "#bf616a"@,
        warning_color: "#ebcb8b"@,
        info_color: "#81a1c1"@,
        background_color: "#2e3440"@,
        foreground_color: "#eceff4"@,
        highlight_color: "#88c0d0"@,
        dimmed_color: "#4c566a"@,
    }
}

/// The dark Solarized theme.
pub open spec fn solarized_dark_theme() -> ThemeText {
    ThemeText {
        name: "solarized-dark"@,
        success_color: "#859900"@,
        error_color: "#dc322f"@,
        warning_color: "#b58900"@,
        info_color: "#268bd2"@,
        background_color: "#002b36"@,
        foreground_color: "#839496"@,
        highlight_color: "#2aa198"@,
        dimmed_color: "#586e75"@,
    }
}

/// The light Solarized theme.
pub open spec fn solarized_light_theme() -> ThemeText {
    ThemeText {
        name: "solarized-light"@,
        success_color: "#859900"@,
        error_color: "#dc322f"@,
        warning_color: "#b58900"@,
        info_color: "#268bd2"@,
        background_color: "#fdf6e3"@,
        foreground_color: "#657b83"@,
        highlight_color: "#2aa198"@,
        dimmed_color: "#93a1a1"@,
    }
}

/// The Catppuccin Mocha theme.
pub open spec fn catppuccin_mocha_theme() -> ThemeText {
    ThemeText {
        name: "catppuccin-mocha"@,
        success_color: "#a6e3a1"@,
        error_color: "#f38ba8"@,
        warning_color: "#f9e2af"@,
        info_color: "#89b4fa"@,
        background_color: "#1e1e2e"@,
        foreground_color: "#cdd6f4"@,
        highlight_color: "#cba6f7"@,
        dimmed_color: "#6c7086"@,
    }
}

/// The Catppuccin Latte theme.
pub open spec fn catppuccin_latte_theme() -> ThemeText {
    ThemeText {
        name: "catppuccin-latte"@,
        success_color: "#40a02b"@,
        error_color: "#d20f39"@,
        warning_color: "#df8e1d"@,
        info_color: "#1e66f5"@,
        background_color: "#eff1f5"@,
        foreground_color: "#4c4f69"@,
        highlight_color: "#8839ef"@,
        dimmed_color: "#9ca0b0"@,
    }
}

/// The dark Gruvbox theme.
pub open spec fn gruvbox_dark_theme() -> ThemeText {
    ThemeText {
        name: "gruvbox-dark"@,
        success_color: "#b8bb26"@,
        error_color: "#fb4934"@,
        warning_color: "#fabd2f"@,
        info_color: "#83a598"@,
        background_color: "#282828"@,
        foreground_color: "#ebdbb2"@,
        highlight_color: "#d3869b"@,
        dimmed_color: "#928374"@,
    }
}

/// The light Gruvbox theme.
pub open spec fn gruvbox_light_theme() -> ThemeText {
    ThemeText {
        name: "gruvbox-light"@,
        success_color: "#79740e"@,
        error_color: "#9d0006"@,
        warning_color: "#b57614"@,
        info_color: "#076678"@,
        background_color: "#fbf1c7"@,
        foreground_color: "#3c3836"@,
        highlight_color: "#8f3f71"@,
        dimmed_color: "#928374"@,
    }
}

/// The Tokyo Night theme.
pub open spec fn tokyo_night_theme() -> ThemeText {
    ThemeText {
        name: "tokyo-night"@,
        success_color: "#9ece6a"@,
        error_color: "#f7768e"@,
        warning_color: "#e0af68"@,
        info_color: "#7aa2f7"@,
        background_color: "#1a1b26"@,
        foreground_color: "#c0caf5"@,
        highlight_color: "#bb9af7"@,
        dimmed_color: "#565f89"@,
    }
}

/// The One Dark theme.
pub open spec fn one_dark_theme() -> ThemeText {
    ThemeText {
        name: "one-dark"@,
        success_color: "#98c379"@,
        error_color: "#e06c75"@,
        warning_color: "#e5c07b"@,
        info_color: "#61afef"@,
        background_color: "#282c34"@,
        foreground_color: "#abb2bf"@,
        highlight_color: "#c678dd"@,
        dimmed_color: "#5c6370"@,
    }
}

/// The theme that a lower-case preset name denotes. Unknown names denote the
/// default theme.
pub open spec fn preset_named(name: Seq<char>) -> ThemeText {
    if name == "dracula"@ {
        dracula_theme()
    } else if name == "nord"@ {
        nord_theme()
    } else if name == "solarized"@ || name == "solarized-dark"@ {
        solarized_dark_theme()
    } else if name == "solarized-light"@ {
        solarized_light_theme()
    } else if name == "catppuccin"@ || name == "catppuccin-mocha"@ {
        catppuccin_mocha_theme()
    } else if name == "catppuccin-latte"@ {
        catppuccin_latte_theme()
    } else if name == "gruvbox"@ || name == "gruvbox-dark"@ {
        gruvbox_dark_theme()
    } else if name == "gruvbox-light"@ {
        gruvbox_light_theme()
    } else if name == "tokyo-night"@ {
        tokyo_night_theme()
    } else if name == "one-dark"@ {
        one_dark_theme()
    } else {
        default_theme()
    }
}

impl ThemeConfig {
    /// The theme of a preset, named in any case.
    pub fn from_preset(name: &str) -> (theme: ThemeConfig)
        ensures
            theme@ == preset_named(lowercase(name@)),
    {
        let lower = to_lowercase(name);
        ThemeConfig::from_preset_name(lower.as_str())
    }

    /// The theme of a preset, named in lower case. Any name that is no
    /// preset's gives the default theme.
    pub fn from_preset_name(name: &str) -> (theme: ThemeConfig)
        ensures
            theme@ == preset_named(name@),
    {
        if same_text(name, "dracula") {
            ThemeConfig::dracula()
        } else if same_text(name, "nord") {
            ThemeConfig::nord()
        } else if same_text(name, "solarized") || same_text(name, "solarized-dark") {
            ThemeConfig::solarized_dark()
        } else if same_text(name, "solarized-light") {
            ThemeConfig::solarized_light()
        } else if same_text(name, "catppuccin") || same_text(name, "catppuccin-mocha") {
            ThemeConfig::catppuccin_mocha()
        } else if same_text(name, "catppuccin-latte") {
            ThemeConfig::catppuccin_latte()
        } else if same_text(name, "gruvbox") || same_text(name, "gruvbox-dark") {
            ThemeConfig::gruvbox_dark()
        } else if same_text(name, "gruvbox-light") {
            ThemeConfig::gruvbox_light()
        } else if same_text(name, "tokyo-night") {
            ThemeConfig::tokyo_night()
        } else if same_text(name, "one-dark") {
            ThemeConfig::one_dark()
        } else {
            ThemeConfig::default()
        }
    }

    /// The Dracula theme.
    pub fn dracula() -> (theme: ThemeConfig)
        ensures
            theme@ == dracula_theme(),
    {
        ThemeConfig {
            name: "dracula".to_string(),
            success_color: "#50fa7b".to_string(),
            error_color: "#ff5555".to_string(),
            warning_color: "#f1fa8c".to_string(),
            info_color: "#8be9fd".to_string(),
            background_color: "#282a36".to_string(),
            foreground_color: "#f8f8f2".to_string(),
            highlight_color: "#bd93f9".to_string(),
            dimmed_color: "#6272a4".to_string(),
        }
    }

    /// The Nord theme.
    pub fn nord() -> (theme: ThemeConfig)
        ensures
            theme@ == nord_theme(),
    {
        ThemeConfig {
            name: "nord".to_string(),
            success_color: "#a3be8c".to_string(),
            error_color: "#bf616a".to_string(),
            warning_color: "#ebcb8b".to_string(),
            info_color: "#81a1c1".to_string(),
            background_color: "#2e3440".to_string(),
            foreground_color: "#eceff4".to_string(),
            highlight_color: "#88c0d0".to_string(),
            dimmed_color: "#4c566a".to_string(),
        }
    }

    /// The dark Solarized theme.
    pub fn solarized_dark() -> (theme: ThemeConfig)
        ensures
            theme@ == solarized_dark_theme(),
    {
        ThemeConfig {
            name: "solarized-dark".to_string(),
            success_color: "#859900".to_string(),
            error_color: "#dc322f".to_string(),
            warning_color: "#b58900".to_string(),
            info_color: "#268bd2".to_string(),
            background_color: "#002b36".to_string(),
            foreground_color: "#839496".to_string(),
            highlight_color: "#2aa198".to_string(),
            dimmed_color: "#586e75".to_string(),
        }
    }

    /// The light Solarized theme.
    pub fn solarized_light() -> (theme: ThemeConfig)
        ensures
            theme@ == solarized_light_theme(),
    {
        ThemeConfig {
            name: "solarized-light".to_string(),
            success_color: "#859900".to_string(),
            error_color: "#dc322f".to_string(),
            warning_color: "#b58900".to_string(),
            info_color: "#268bd2".to_string(),
            background_color: "#fdf6e3".to_string(),
            foreground_color: "#657b83".to_string(),
            highlight_color: "#2aa198".to_string(),
            dimmed_color: "#93a1a1".to_string(),
        }
    }

    /// The Catppuccin Mocha theme.
    pub fn catppuccin_mocha() -> (theme: ThemeConfig)
        ensures
            theme@ == catppuccin_mocha_theme(),
    {
        ThemeConfig {
            name: "catppuccin-mocha".to_string(),
            success_color: "#a6e3a1".to_string(),
            error_color: "#f38ba8".to_string(),
            warning_color: "#f9e2af".to_string(),
            info_color: "#89b4fa".to_string(),
            background_color: "#1e1e2e".to_string(),
            foreground_color: "#cdd6f4".to_string(),
            highlight_color: "#cba6f7".to_string(),
            dimmed_color: "#6c7086".to_string(),
        }
    }

    /// The Catppuccin Latte theme.
    pub fn catppuccin_latte() -> (theme: ThemeConfig)
        ensures
            theme@ == catppuccin_latte_theme(),
    {
        ThemeConfig {
            name: "catppuccin-latte".to_string(),
            success_color: "#40a02b".to_string(),
            error_color: "#d20f39".to_string(),
            warning_color: "#df8e1d".to_string(),
            info_color: "#1e66f5".to_string(),
            background_color: "#eff1f5".to_string(),
            foreground_color: "#4c4f69".to_string(),
            highlight_color: "#8839ef".to_string(),
            dimmed_color: "#9ca0b0".to_string(),
        }
    }

    /// The dark Gruvbox theme.
    pub fn gruvbox_dark() -> (theme: ThemeConfig)
        ensures
            theme@ == gruvbox_dark_theme(),
    {
        ThemeConfig {
            name: "gruvbox-dark".to_string(),
            success_color: "#b8bb26".to_string(),
            error_color: "#fb4934".to_string(),
            warning_color: "#fabd2f".to_string(),
            info_color: "#83a598".to_string(),
            background_color: "#282828".to_string(),
            foreground_color: "#ebdbb2".to_string(),
            highlight_color: "#d3869b".to_string(),
            dimmed_color: "#928374".to_string(),
        }
    }

    /// The light Gruvbox theme.
    pub fn gruvbox_light() -> (theme: ThemeConfig)
        ensures
            theme@ == gruvbox_light_theme(),
    {
        ThemeConfig {
            name: "gruvbox-light".to_string(),
            success_color: "#79740e".to_string(),
            error_color: "#9d0006".to_string(),
            warning_color: "#b57614".to_string(),
            info_color: "#076678".to_string(),
            background_color: "#fbf1c7".to_string(),
            foreground_color: "#3c3836".to_string(),
            highlight_color: "#8f3f71".to_string(),
            dimmed_color: "#928374".to_string(),
        }
    }

    /// The Tokyo Night theme.
    pub fn tokyo_night() -> (theme: ThemeConfig)
        ensures
            theme@ == tokyo_night_theme(),
    {
        ThemeConfig {
            name: "tokyo-night".to_string(),
            success_color: "#9ece6a".to_string(),
            error_color: "#f7768e".to_string(),
            warning_color: "#e0af68".to_string(),
            info_color: "#7aa2f7".to_string(),
            background_color: "#1a1b26".to_string(),
            foreground_color: "#c0caf5".to_string(),
            highlight_color: "#bb9af7".to_string(),
            dimmed_color: "#565f89".to_string(),
        }
    }

    /// The One Dark theme.
    pub fn one_dark() -> (theme: ThemeConfig)
        ensures
            theme@ == one_dark_theme(),
    {
        ThemeConfig {
            name: "one-dark".to_string(),
            success_color: "#98c379".to_string(),
            error_color: "#e06c75".to_string(),
            warning_color: "#e5c07b".to_string(),
            info_color: "#61afef".to_string(),
            background_color: "#282c34".to_string(),
            foreground_color: "#abb2bf".to_string(),
            highlight_color: "#c678dd".to_string(),
            dimmed_color: "#5c6370".to_string(),
        }
    }
}

impl Clone for ThemeConfig {
    fn clone(&self) -> (theme: ThemeConfig)
        ensures
            theme@ == self@,
    {
        ThemeConfig {
            name: self.name.clone(),
            success_color: self.success_color.clone(),
            error_color: self.error_color.clone(),
            warning_color: self.warning_color.clone(),
            info_color: self.info_color.clone(),
            background_color: self.background_color.clone(),
            foreground_color: self.foreground_color.clone(),
            highlight_color: self.highlight_color.clone(),
            dimmed_color: self.dimmed_color.clone(),
        }
    }
}

impl Default for ThemeConfig {
    fn default() -> (theme: ThemeConfig)
        ensures
            theme@ == default_theme(),
    {
        ThemeConfig {
            name: "default".to_string(),
            success_color: "#22c55e".to_string(),
            error_color: "#ef4444".to_string(),
            warning_color: "#eab308".to_string(),
            info_color: "#3b82f6".to_string(),
            background_color: "#1e1e2e".to_string(),
            foreground_color: "#cdd6f4".to_string(),
            highlight_color: "#89b4fa".to_string(),
            dimmed_color: "#6c7086".to_string(),
        }
    }
}

/// Settings of the whole engine.
#[derive(Debug)]
pub struct Config {
    /// Whether the engine is switched on.
    pub enabled: bool,
    /// The theme.
    pub theme: ThemeConfig,
    /// Animation settings.
    pub animation: AnimationConfig,
    /// Accessibility switches.
    pub accessibility: AccessibilityConfig,
    /// Time-to-live of notifications that bring none, in milliseconds.
    pub notification_timeout_ms: u64,
    /// Capacity of each level of the queue.
    pub queue_max_size: usize,
    /// Whether the status bar is drawn.
    pub show_status_bar: bool,
    /// Whether pane borders are coloured.
    pub show_border_colors: bool,
    /// Whether tabs carry badges.
    pub show_tab_badges: bool,
    /// Path of the socket on which notifications arrive.
    pub ipc_socket_path: Option<String>,
    /// Whether debug output is wanted.
    pub debug: bool,
}

/// Settings as text and numbers: the model in which settings are compared.
pub struct ConfigText {
    pub enabled: bool,
    pub theme: ThemeText,
    pub animation: AnimationConfig,
    pub accessibility: AccessibilityConfig,
    pub notification_timeout_ms: u64,
    pub queue_max_size: usize,
    pub show_status_bar: bool,
    pub show_border_colors: bool,
    pub show_tab_badges: bool,
    pub ipc_socket_path: Option<Seq<char>>,
    pub debug: bool,
}

impl View for Config {
    type V = ConfigText;

    open spec fn view(&self) -> ConfigText {
        ConfigText {
            enabled: self.enabled,
            theme: self.theme@,
            animation: self.animation,
            accessibility: self.accessibility,
            notification_timeout_ms: self.notification_timeout_ms,
            queue_max_size: self.queue_max_size,
            show_status_bar: self.show_status_bar,
            show_border_colors: self.show_border_colors,
            show_tab_badges: self.show_tab_badges,
            ipc_socket_path: match self.ipc_socket_path {
                Some(path) => Some(path@),
                None => None,
            },
            debug: self.debug,
        }
    }
}

/// The default settings.
pub open spec fn default_config() -> ConfigText {
    ConfigText {
        enabled: true,
        theme: default_theme(),
        animation: AnimationConfig {
            enabled: true,
            style: AnimationStyle::Pulse,
            speed: 50,
            cycles: 3,
            duration_ms: 2000,
        },
        accessibility: AccessibilityConfig {
            high_contrast: false,
            reduced_motion: false,
            screen_reader: false,
            use_patterns: true,
        },
        notification_timeout_ms: 300_000,
        queue_max_size: 100,
        show_status_bar: true,
        show_border_colors: true,
        show_tab_badges: true,
        ipc_socket_path: None,
        debug: false,
    }
}

/// Keys and values as text.
pub open spec fn pairs_text(entries: Seq<(String, String)>) -> Seq<(Seq<char>, Seq<char>)> {
    entries.map_values(|pair: (String, String)| (pair.0@, pair.1@))
}

/// The value of the first entry with the given key.
pub open spec fn setting(entries: Seq<(Seq<char>, Seq<char>)>, key: Seq<char>) -> Option<
    Seq<char>,
>
    decreases entries.len(),
{
    if entries.len() == 0 {
        None
    } else if entries[0].0 == key {
        Some(entries[0].1)
    } else {
        setting(entries.drop_first(), key)
    }
}

/// The switch set under `key`; `default` where the key is missing or its
/// value is neither `true` nor `false`.
pub open spec fn flag_setting(
    entries: Seq<(Seq<char>, Seq<char>)>,
    key: Seq<char>,
    default: bool,
) -> bool {
    match setting(entries, key) {
        Some(text) => match bool_of(text) {
            Some(value) => value,
            None => default,
        },
        None => default,
    }
}

/// The number set under `key`; `default` where the key is missing or its
/// value is no number up to `max`.
pub open spec fn number_setting(
    entries: Seq<(Seq<char>, Seq<char>)>,
    key: Seq<char>,
    max: int,
    default: int,
) -> int {
    match setting(entries, key) {
        Some(text) => match unsigned_of(text, max) {
            Some(value) => value,
            None => default,
        },
        None => default,
    }
}

/// A number setting lies between zero and its maximum.
pub proof fn lemma_number_setting_range(
    entries: Seq<(Seq<char>, Seq<char>)>,
    key: Seq<char>,
    max: int,
    default: int,
)
    requires
        0 <= default <= max,
    ensures
        0 <= number_setting(entries, key, max, default) <= max,
{
    match setting(entries, key) {
        Some(text) => {
            crate::text::lemma_unsigned_of_range(text, max);
        },
        None => {},
    }
}

/// The text set under `key`; `default` where the key is missing.
pub open spec fn text_setting(
    entries: Seq<(Seq<char>, Seq<char>)>,
    key: Seq<char>,
    default: Seq<char>,
) -> Seq<char> {
    match setting(entries, key) {
        Some(text) => text,
        None => default,
    }
}

/// The theme that the entries configure: the preset named under `theme`,
/// with the four notification colours replaced by those set on their own.
pub open spec fn configured_theme(entries: Seq<(Seq<char>, Seq<char>)>) -> ThemeText {
    let preset = match setting(entries, "theme"@) {
        Some(name) => preset_named(lowercase(name)),
        None => default_theme(),
    };
    ThemeText {
        success_color: text_setting(entries, "success_color"@, preset.success_color),
        error_color: text_setting(entries, "error_color"@, preset.error_color),
        warning_color: text_setting(entries, "warning_color"@, preset.warning_color),
        info_color: text_setting(entries, "info_color"@, preset.info_color),
        ..preset
    }
}

/// The settings that the entries configure. What is missing or unreadable
/// keeps its default. Reduced motion switches animations off.
pub open spec fn configured(entries: Seq<(Seq<char>, Seq<char>)>) -> ConfigText {
    let reduced_motion = flag_setting(entries, "reduced_motion"@, false);
    ConfigText {
        enabled: flag_setting(entries, "enabled"@, true),
        theme: configured_theme(entries),
        animation: AnimationConfig {
            enabled: !reduced_motion && flag_setting(entries, "animation_enabled"@, true),
            style: match setting(entries, "animation_style"@) {
                Some(name) => style_named(lowercase(name)),
                None => AnimationStyle::Pulse,
            },
            speed: number_setting(entries, "animation_speed"@, 255, 50) as u8,
            cycles: number_setting(entries, "animation_cycles"@, 255, 3) as u8,
            duration_ms: 2000,
        },
        accessibility: AccessibilityConfig {
            high_contrast: flag_setting(entries, "high_contrast"@, false),
            reduced_motion,
            screen_reader: false,
            use_patterns: true,
        },
        notification_timeout_ms: number_setting(
            entries,
            "notification_timeout_ms"@,
            u64::MAX as int,
            300_000,
        ) as u64,
        queue_max_size: number_setting(entries, "queue_max_size"@, usize::MAX as int, 100) as usize,
        show_status_bar: flag_setting(entries, "show_status_bar"@, true),
        show_border_colors: flag_setting(entries, "show_border_colors"@, true),
        show_tab_badges: flag_setting(entries, "show_tab_badges"@, true),
        ipc_socket_path: setting(entries, "ipc_socket_path"@),
        debug: flag_setting(entries, "debug"@, false),
    }
}

/// What is wrong with the settings, if anything: the first of the rules of
/// [`Config::validate`] that they break.
pub open spec fn violation(config: ConfigText) -> Option<Seq<char>> {
    if config.notification_timeout_ms < 1000 {
        Some("notification_timeout_ms must be at least 1000ms"@)
    } else if config.queue_max_size < 1 {
        Some("queue_max_size must be at least 1"@)
    } else if config.animation.speed < 1 || config.animation.speed > 100 {
        Some("animation_speed must be between 1 and 100"@)
    } else if config.animation.cycles < 1 || config.animation.cycles > 10 {
        Some("animation_cycles must be between 1 and 10"@)
    } else {
        None
    }
}

/// Looks up the value of the first entry with the given key.
pub fn lookup<'a>(entries: &'a Vec<(String, String)>, key: &str) -> (value: Option<&'a String>)
    ensures
        match value {
            Some(text) => setting(pairs_text(entries@), key@) == Some(text@),
            None => setting(pairs_text(entries@), key@) is None,
        },
{
    let ghost all = pairs_text(entries@);
    let mut i: usize = 0;
    assert(all.skip(0) =~= all);
    while i < entries.len()
        invariant
            i <= entries.len(),
            all == pairs_text(entries@),
            setting(all, key@) == setting(all.skip(i as int), key@),
        decreases entries.len() - i,
    {
        assert(all.skip(i as int).drop_first() =~= all.skip(i as int + 1));
        assert(all.skip(i as int)[0] == all[i as int]);
        if same_text(entries[i].0.as_str(), key) {
            return Some(&entries[i].1);
        }
        i += 1;
    }
    None
}

fn lookup_flag(entries: &Vec<(String, String)>, key: &str, default: bool) -> (value: bool)
    ensures
        value == flag_setting(pairs_text(entries@), key@, default),
{
    match lookup(entries, key) {
        Some(text) => match parse_bool(text.as_str()) {
            Some(value) => value,
            None => default,
        },
        None => default,
    }
}

fn lookup_number(entries: &Vec<(String, String)>, key: &str, max: u64, default: u64) -> (value:
    u64)
    requires
        default <= max,
    ensures
        value == number_setting(pairs_text(entries@), key@, max as int, default as int),
        value <= max,
{
    match lookup(entries, key) {
        Some(text) => match parse_unsigned(text.as_str(), max) {
            Some(value) => value,
            None => default,
        },
        None => default,
    }
}

fn lookup_text(entries: &Vec<(String, String)>, key: &str, default: String) -> (value: String)
    ensures
        value@ == text_setting(pairs_text(entries@), key@, default@),
{
    match lookup(entries, key) {
        Some(text) => text.clone(),
        None => default,
    }
}

fn read_theme(entries: &Vec<(String, String)>) -> (theme: ThemeConfig)
    ensures
        theme@ == configured_theme(pairs_text(entries@)),
{
    let preset = match lookup(entries, "theme") {
        Some(name) => ThemeConfig::from_preset(name.as_str()),
        None => ThemeConfig::default(),
    };
    ThemeConfig {
        name: preset.name,
        success_color: lookup_text(entries, "success_color", preset.success_color),
        error_color: lookup_text(entries, "error_color", preset.error_color),
        warning_color: lookup_text(entries, "warning_color", preset.warning_color),
        info_color: lookup_text(entries, "info_color", preset.info_color),
        background_color: preset.background_color,
        foreground_color: preset.foreground_color,
        highlight_color: preset.highlight_color,
        dimmed_color: preset.dimmed_color,
    }
}

fn read_accessibility(entries: &Vec<(String, String)>) -> (accessibility: AccessibilityConfig)
    ensures
        accessibility == configured(pairs_text(entries@)).accessibility,
{
    AccessibilityConfig {
        high_contrast: lookup_flag(entries, "high_contrast", false),
        reduced_motion: lookup_flag(entries, "reduced_motion", false),
        screen_reader: false,
        use_patterns: true,
    }
}

fn read_animation(entries: &Vec<(String, String)>, reduced_motion: bool) -> (animation:
    AnimationConfig)
    requires
        reduced_motion == flag_setting(pairs_text(entries@), "reduced_motion"@, false),
    ensures
        animation == configured(pairs_text(entries@)).animation,
{
    AnimationConfig {
        enabled: !reduced_motion && lookup_flag(entries, "animation_enabled", true),
        style: match lookup(entries, "animation_style") {
            Some(name) => AnimationStyle::from_str(name.as_str()),
            None => AnimationStyle::Pulse,
        },
        speed: lookup_number(entries, "animation_speed", 255, 50) as u8,
        cycles: lookup_number(entries, "animation_cycles", 255, 3) as u8,
        duration_ms: 2000,
    }
}

impl Config {
    /// The settings that a list of keys and values configures. Of two
    /// entries with one key the first counts. A missing key, or a value that
    /// cannot be read, leaves the default in place.
    pub fn from_plugin_config(config_map: &Vec<(String, String)>) -> (config: Config)
        ensures
            config@ == configured(pairs_text(config_map@)),
    {
        let accessibility = read_accessibility(config_map);
        Config {
            enabled: lookup_flag(config_map, "enabled", true),
            theme: read_theme(config_map),
            animation: read_animation(config_map, accessibility.reduced_motion),
            accessibility,
            notification_timeout_ms: lookup_number(
                config_map,
                "notification_timeout_ms",
                u64::MAX,
                300_000,
            ),
            queue_max_size: lookup_number(config_map, "queue_max_size", usize::MAX as u64, 100)
                as usize,
            show_status_bar: lookup_flag(config_map, "show_status_bar", true),
            show_border_colors: lookup_flag(config_map, "show_border_colors", true),
            show_tab_badges: lookup_flag(config_map, "show_tab_badges", true),
            ipc_socket_path: match lookup(config_map, "ipc_socket_path") {
                Some(path) => Some(path.clone()),
                None => None,
            },
            debug: lookup_flag(config_map, "debug", false),
        }
    }

    /// Checks the settings: the timeout is at least one second, a level of
    /// the queue holds at least one entry, the speed lies between 1 and 100
    /// and the cycles between 1 and 10. The error names the first rule that
    /// is broken.
    pub fn validate(&self) -> (outcome: Result<(), String>)
        ensures
            match outcome {
                Ok(_) => violation(self@) is None,
                Err(message) => violation(self@) == Some(message@),
            },
    {
        if self.notification_timeout_ms < 1000 {
            return Err("notification_timeout_ms must be at least 1000ms".to_string());
        }
        if self.queue_max_size < 1 {
            return Err("queue_max_size must be at least 1".to_string());
        }
        if self.animation.speed < 1 || self.animation.speed > 100 {
            return Err("animation_speed must be between 1 and 100".to_string());
        }
        if self.animation.cycles < 1 || self.animation.cycles > 10 {
            return Err("animation_cycles must be between 1 and 10".to_string());
        }
        Ok(())
    }
}

impl Clone for Config {
    fn clone(&self) -> (config: Config)
        ensures
            config@ == self@,
    {
        Config {
            enabled: self.enabled,
            theme: self.theme.clone(),
            animation: self.animation,
            accessibility: self.accessibility,
            notification_timeout_ms: self.notification_timeout_ms,
            queue_max_size: self.queue_max_size,
            show_status_bar: self.show_status_bar,
            show_border_colors: self.show_border_colors,
            show_tab_badges: self.show_tab_badges,
            ipc_socket_path: match &self.ipc_socket_path {
                Some(path) => Some(path.clone()),
                None => None,
            },
            debug: self.debug,
        }
    }
}

impl Default for Config {
    fn default() -> (config: Config)
        ensures
            config@ == default_config(),
    {
        Config {
            enabled: true,
            theme: ThemeConfig::default(),
            animation: AnimationConfig::default(),
            accessibility: AccessibilityConfig::default(),
            notification_timeout_ms: 300_000,
            queue_max_size: 100,
            show_status_bar: true,
            show_border_colors: true,
            show_tab_badges: true,
            ipc_socket_path: None,
            debug: false,
        }
    }
}

/// Keeps the path of the configuration file and the settings last read
/// from it.
#[derive(Debug)]
pub struct ConfigManager {
    last_config: Option<Config>,
    config_path: Option<String>,
}

impl ConfigManager {
    /// The path of the configuration file, if one is set.
    pub closed spec fn path(&self) -> Option<Seq<char>> {
        match self.config_path {
            Some(path) => Some(path@),
            None => None,
        }
    }

    /// The settings last read, if any were.
    pub closed spec fn last(&self) -> Option<Config> {
        self.last_config
    }

    /// A manager without a path.
    pub fn new() -> (manager: ConfigManager)
        ensures
            manager.path() is None,
            manager.last() is None,
    {
        ConfigManager { last_config: None, config_path: None }
    }

    /// Sets the path of the configuration file.
    pub fn set_path(&mut self, path: &str)
        ensures
            final(self).path() == Some(path@),
            final(self).last() == old(self).last(),
    {
        self.config_path = Some(path.to_string());
    }

    /// Reads the settings anew. The engine has no access to files, so there
    /// is never anything new: the answer is always `None`.
    pub fn reload(&mut self) -> (config: Option<Config>)
        ensures
            config is None,
            final(self).path() == old(self).path(),
            final(self).last() == old(self).last(),
    {
        None
    }
}

impl Default for ConfigManager {
    fn default() -> (manager: ConfigManager)
        ensures
            manager.path() is None,
            manager.last() is None,
    {
        ConfigManager::new()
    }
}

} // verus!
