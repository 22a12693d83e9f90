//! The user's preferences, part by part, and the value each part has before
//! the user has chosen anything.

use vstd::prelude::*;

verus! {

/// How the chord drives listening: while it is held, or from one press to
/// the next.
#[derive(Debug, Clone, Copy, PartialEq, Eq, Structural)]
pub enum ActivationMode {
    Hold,
    Toggle,
}

impl Default for ActivationMode {
    fn default() -> (mode: ActivationMode)
        ensures
            mode == ActivationMode::Hold,
    {
        ActivationMode::Hold
    }
}

/// How loud silence may be.
#[derive(Debug, Clone, Copy, PartialEq, Eq, Structural)]
pub enum SilenceRms {
    Low,
    Medium,
    High,
}

impl Default for SilenceRms {
    fn default() -> (level: SilenceRms)
        ensures
            level == SilenceRms::Medium,
    {
        SilenceRms::Medium
    }
}

/// The speech model in use.
#[derive(Debug, Clone, Copy, PartialEq, Eq, Structural)]
pub enum ModelProfile {
    EnglishSmall,
    MultilingualSmall,
    MultilingualMedium,
}

impl Default for ModelProfile {
    fn default() -> (profile: ModelProfile)
        ensures
            profile == ModelProfile::MultilingualSmall,
    {
        ModelProfile::MultilingualSmall
    }
}

/// Which side's chord may activate. These are the enablement flags that the
/// chord engine is set to.
#[derive(Debug, Clone, Copy, PartialEq, Eq, Structural)]
pub struct Hotkeys {
    pub left_chord: bool,
    pub right_chord: bool,
}

impl Default for Hotkeys {
    fn default() -> (hotkeys: Hotkeys)
        ensures
            hotkeys == (Hotkeys { left_chord: true, right_chord: true }),
    {
        Hotkeys { left_chord: true, right_chord: true }
    }
}

/// How recognised text is typed out.
#[derive(Debug, Clone, Copy, PartialEq, Eq, Structural)]
pub struct TypingPrefs {
    pub newline_at_end: bool,
    pub throttle_ms: u32,
}

impl Default for TypingPrefs {
    fn default() -> (typing: TypingPrefs)
        ensures
            typing == (TypingPrefs { newline_at_end: false, throttle_ms: 0 }),
    {
        TypingPrefs { newline_at_end: false, throttle_ms: 0 }
    }
}

/// The phrase that is spoken for each voice command.
#[derive(Debug, Clone, PartialEq)]
pub struct VoiceCommandMap {
    pub newline: String,
    pub new_paragraph: String,
    pub tab: String,
    pub period: String,
    pub comma: String,
    pub colon: String,
    pub semicolon: String,
    pub open_quote: String,
    pub close_quote: String,
    pub backtick: String,
    pub code_block: String,
}

impl VoiceCommandMap {
    /// Each command is spoken by its own name in plain English.
    pub open spec fn is_default(self) -> bool {
        &&& self.newline@ == "newline"@
        &&& self.new_paragraph@ == "new paragraph"@
        &&& self.tab@ == "tab"@
        &&& self.period@ == "period"@
        &&& self.comma@ == "comma"@
        &&& self.colon@ == "colon"@
        &&& self.semicolon@ == "semicolon"@
        &&& self.open_quote@ == "open quote"@
        &&& self.close_quote@ == "close quote"@
        &&& self.backtick@ == "backtick"@
        &&& self.code_block@ == "code block"@
    }
}

impl Default for VoiceCommandMap {
    fn default() -> (map: VoiceCommandMap)
        ensures
            map.is_default(),
    {
        VoiceCommandMap {
            newline: "newline".to_owned(),
            new_paragraph: "new paragraph".to_owned(),
            tab: "tab".to_owned(),
            period: "period".to_owned(),
            comma: "comma".to_owned(),
            colon: "colon".to_owned(),
            semicolon: "semicolon".to_owned(),
            open_quote: "open quote".to_owned(),
            close_quote: "close quote".to_owned(),
            backtick: "backtick".to_owned(),
            code_block: "code block".to_owned(),
        }
    }
}

/// Whether voice commands are listened for, and their phrases.
#[derive(Debug, Clone, PartialEq)]
pub struct VoiceCommands {
    pub enabled: bool,
    pub map: VoiceCommandMap,
}

impl Default for VoiceCommands {
    fn default() -> (commands: VoiceCommands)
        ensures
            commands.enabled,
            commands.map.is_default(),
    {
        VoiceCommands { enabled: true, map: VoiceCommandMap::default() }
    }
}

/// The limits of a recording.
#[derive(Debug, Clone, Copy, PartialEq, Eq, Structural)]
pub struct RecordPrefs {
    pub chunk_seconds: u32,
    pub max_hours: u32,
    pub max_file_gb: u32,
}

impl Default for RecordPrefs {
    fn default() -> (record: RecordPrefs)
        ensures
            record == (RecordPrefs { chunk_seconds: 60, max_hours: 8, max_file_gb: 4 }),
    {
        RecordPrefs { chunk_seconds: 60, max_hours: 8, max_file_gb: 4 }
    }
}

} // verus!
