//! First-boot setup wizard: vault passphrase, wallpaper, done.
//! Shown once; the vault step cannot be skipped.
use vstd::prelude::*;
use crate::text::{
    utf8_len,
    trimmed,
    is_alphanumeric_char,
    is_whitespace_char,
    str_trim,
    char_is_alphanumeric,
    char_is_whitespace,
    zeroize_string,
};

verus! {

/// Step of the first-boot wizard.
#[derive(PartialEq, Eq, Structural, Clone, Copy, Debug)]
pub enum WizardStep {
    /// Passphrase creation for the encrypted vault.
    VaultSetup,
    /// Wallpaper selection.
    WallpaperPick,
    /// "you're all set".
    Done,
}

/// Passphrase strength levels 0 to 4.
#[derive(PartialEq, Eq, Structural, Clone, Copy, Debug)]
pub enum PassphraseStrength {
    /// Fewer than 8 characters.
    TooShort,
    /// 8+ characters, nothing else.
    Weak,
    /// Mixed case or digits.
    Fair,
    /// Mixed case and digits.
    Good,
    /// Mixed case, digits and symbols.
    Strong,
}

pub open spec fn is_lower_char(c: char) -> bool {
    0x61 <= c as u32 && c as u32 <= 0x7a
}

pub open spec fn is_upper_char(c: char) -> bool {
    0x41 <= c as u32 && c as u32 <= 0x5a
}

pub open spec fn is_digit_char(c: char) -> bool {
    0x30 <= c as u32 && c as u32 <= 0x39
}

/// Neither alphanumeric nor whitespace.
pub open spec fn is_symbol_char(c: char) -> bool {
    !is_alphanumeric_char(c) && !is_whitespace_char(c)
}

pub open spec fn any_char(s: Seq<char>, p: spec_fn(char) -> bool) -> bool {
    exists|i: int| 0 <= i < s.len() && p(#[trigger] s[i])
}

/// Strength of a passphrase with characters `s`.
pub open spec fn strength_of(s: Seq<char>) -> PassphraseStrength {
    if s.len() < 8 {
        PassphraseStrength::TooShort
    } else {
        let mixed = any_char(s, |c: char| is_lower_char(c)) && any_char(s, |c: char| is_upper_char(c));
        let digit = any_char(s, |c: char| is_digit_char(c));
        let symbol = any_char(s, |c: char| is_symbol_char(c));
        if mixed && digit && symbol {
            PassphraseStrength::Strong
        } else if mixed && digit {
            PassphraseStrength::Good
        } else if mixed || digit {
            PassphraseStrength::Fair
        } else {
            PassphraseStrength::Weak
        }
    }
}

/// A passphrase of 8 or more characters without both letter cases and
/// without a digit rates Weak, whatever symbols it holds.
pub proof fn plain_passphrase_is_weak(s: Seq<char>)
    requires
        s.len() >= 8,
        !((exists|i: int| 0 <= i < s.len() && is_lower_char(#[trigger] s[i])) && (exists|i: int|
            0 <= i < s.len() && is_upper_char(#[trigger] s[i]))),
        forall|i: int| 0 <= i < s.len() ==> !is_digit_char(#[trigger] s[i]),
    ensures
        strength_of(s) == PassphraseStrength::Weak,
{
}

/// How a passphrase rates: under 8 characters is too short; otherwise
/// both letter cases with a digit and a symbol is Strong, both cases with a
/// digit but no symbol is Good, exactly one of "both cases" and "a digit"
/// is Fair, and neither is Weak.
pub proof fn passphrase_rating(s: Seq<char>)
    ensures
        ({
            let mixed = (exists|i: int| 0 <= i < s.len() && is_lower_char(#[trigger] s[i])) && (exists|i: int|
                0 <= i < s.len() && is_upper_char(#[trigger] s[i]));
            let digit = exists|i: int| 0 <= i < s.len() && is_digit_char(#[trigger] s[i]);
            let symbol = exists|i: int| 0 <= i < s.len() && is_symbol_char(#[trigger] s[i]);
            &&& s.len() < 8 ==> strength_of(s) == PassphraseStrength::TooShort
            &&& s.len() >= 8 && mixed && digit && symbol ==> strength_of(s) == PassphraseStrength::Strong
            &&& s.len() >= 8 && mixed && digit && !symbol ==> strength_of(s) == PassphraseStrength::Good
            &&& s.len() >= 8 && (mixed != digit) ==> strength_of(s) == PassphraseStrength::Fair
            &&& s.len() >= 8 && !mixed && !digit ==> strength_of(s) == PassphraseStrength::Weak
        }),
{
}

pub open spec fn level_of(p: PassphraseStrength) -> nat {
    match p {
        PassphraseStrength::TooShort => 0,
        PassphraseStrength::Weak => 1,
        PassphraseStrength::Fair => 2,
        PassphraseStrength::Good => 3,
        PassphraseStrength::Strong => 4,
    }
}

impl PassphraseStrength {
    /// Rates a passphrase honestly:
    /// 0 too short (< 8 characters), 1 weak, 2 mixed case or digits,
    /// 3 mixed case and digits, 4 mixed case, digits and symbols.
    pub fn calculate(pass: &str) -> (r: Self)
        ensures
            r == strength_of(pass@),
            pass@.len() >= 8 && !((exists|i: int| 0 <= i < pass@.len() && is_lower_char(#[trigger] pass@[i])) && (exists|i: int|
                0 <= i < pass@.len() && is_upper_char(#[trigger] pass@[i]))) && !(exists|i: int|
                0 <= i < pass@.len() && is_digit_char(#[trigger] pass@[i])) ==> r == PassphraseStrength::Weak,
    {
        let n = pass.unicode_len();
        if n < 8 {
            return PassphraseStrength::TooShort;
        }
        let mut has_lower = false;
        let mut has_upper = false;
        let mut has_digit = false;
        let mut has_symbol = false;
        let mut i: usize = 0;
        while i < n
            invariant
                0 <= i <= n,
                n == pass@.len(),
                has_lower == exists|j: int| 0 <= j < i && is_lower_char(#[trigger] pass@[j]),
                has_upper == exists|j: int| 0 <= j < i && is_upper_char(#[trigger] pass@[j]),
                has_digit == exists|j: int| 0 <= j < i && is_digit_char(#[trigger] pass@[j]),
                has_symbol == exists|j: int| 0 <= j < i && is_symbol_char(#[trigger] pass@[j]),
            decreases n - i,
        {
            let c = pass.get_char(i);
            let code = c as u32;
            if 0x61 <= code && code <= 0x7a {
                has_lower = true;
            }
            if 0x41 <= code && code <= 0x5a {
                has_upper = true;
            }
            if 0x30 <= code && code <= 0x39 {
                has_digit = true;
            }
            if !char_is_alphanumeric(c) && !char_is_whitespace(c) {
                has_symbol = true;
            }
            i = i + 1;
        }
        let mixed = has_lower && has_upper;
        if mixed && has_digit && has_symbol {
            PassphraseStrength::Strong
        } else if mixed && has_digit {
            PassphraseStrength::Good
        } else if mixed || has_digit {
            PassphraseStrength::Fair
        } else {
            PassphraseStrength::Weak
        }
    }

    /// The level 0 to 4.
    pub fn level(self) -> (l: u8)
        ensures
            l == level_of(self),
    {
        match self {
            PassphraseStrength::TooShort => 0,
            PassphraseStrength::Weak => 1,
            PassphraseStrength::Fair => 2,
            PassphraseStrength::Good => 3,
            PassphraseStrength::Strong => 4,
        }
    }
}

/// Built-in wallpapers offered by the wizard.
#[derive(PartialEq, Eq, Structural, Clone, Copy, Debug)]
pub enum BuiltinWallpaper {
    Mars,
    Aurora,
    Nebula,
}

impl BuiltinWallpaper {
    pub const ALL: [BuiltinWallpaper; 3] = [BuiltinWallpaper::Mars, BuiltinWallpaper::Aurora, BuiltinWallpaper::Nebula];
}

/// Continue button state.
#[derive(PartialEq, Eq, Structural, Clone, Copy, Debug)]
pub enum ContinueButtonState {
    Disabled,
    Enabled,
    /// Brief shake when the two passphrases do not match.
    Shake,
}

/// Card entrance and exit.
#[derive(PartialEq, Eq, Structural, Clone, Copy, Debug)]
pub enum CardPhase {
    Entering,
    Active,
    Exiting,
    Complete,
}

pub const MIN_PASSPHRASE_LEN: usize = 8;

pub struct WelcomeScreen {
    pub current_step: WizardStep,
    pub card_phase: CardPhase,
    pub is_active: bool,
    pub passphrase1: String,
    pub passphrase2: String,
    pub passphrase_visible: bool,
    pub passphrase_strength: PassphraseStrength,
    pub continue_button_state: ContinueButtonState,
    pub selected_wallpaper: usize,
    pub custom_wallpaper_path: Option<String>,
    /// Index of the highlighted progress dot.
    pub active_dot: usize,
}

/// The two passphrases agree and are long enough.
pub open spec fn fields_match(p1: Seq<char>, p2: Seq<char>) -> bool {
    p1.len() > 0 && p1 == p2 && utf8_len(p1) >= MIN_PASSPHRASE_LEN
}

/// The continue button after the passphrase fields changed.
pub open spec fn continue_after(
    state: ContinueButtonState,
    strength: PassphraseStrength,
    matched: bool,
) -> ContinueButtonState {
    if matched && level_of(strength) >= 1 {
        ContinueButtonState::Enabled
    } else if state == ContinueButtonState::Shake {
        ContinueButtonState::Shake
    } else {
        ContinueButtonState::Disabled
    }
}

impl WelcomeScreen {
    pub fn new() -> (w: Self)
        ensures
            w.current_step == WizardStep::VaultSetup,
            w.card_phase == CardPhase::Entering,
            !w.is_active,
            w.passphrase1@.len() == 0,
            w.passphrase2@.len() == 0,
            !w.passphrase_visible,
            w.passphrase_strength == PassphraseStrength::TooShort,
            w.continue_button_state == ContinueButtonState::Disabled,
            w.selected_wallpaper == 0,
            w.custom_wallpaper_path is None,
            w.active_dot == 0,
    {
        WelcomeScreen {
            current_step: WizardStep::VaultSetup,
            card_phase: CardPhase::Entering,
            is_active: false,
            passphrase1: String::new(),
            passphrase2: String::new(),
            passphrase_visible: false,
            passphrase_strength: PassphraseStrength::TooShort,
            continue_button_state: ContinueButtonState::Disabled,
            selected_wallpaper: 0,
            custom_wallpaper_path: None,
            active_dot: 0,
        }
    }

    /// The card drops in from above.
    pub fn activate(&mut self)
        ensures
            *final(self) == (WelcomeScreen { is_active: true, card_phase: CardPhase::Entering, ..*old(self) }),
    {
        self.is_active = true;
        self.card_phase = CardPhase::Entering;
    }

    pub fn is_complete(&self) -> (b: bool)
        ensures
            b == (self.card_phase == CardPhase::Complete),
    {
        self.card_phase == CardPhase::Complete
    }

    /// Advances the wizard. On the last step the card exits and the wizard
    /// publishes its completion: the result says whether it did.
    pub fn next_step(&mut self) -> (completed: bool)
        ensures
            completed == (old(self).current_step == WizardStep::Done),
            old(self).current_step == WizardStep::VaultSetup ==> {
                &&& final(self).current_step == WizardStep::WallpaperPick
                &&& final(self).active_dot == 1
                &&& final(self).passphrase1@.len() == 0
                &&& final(self).passphrase2@.len() == 0
                &&& !final(self).passphrase_visible
                &&& final(self).card_phase == old(self).card_phase
                &&& final(self).is_active == old(self).is_active
                &&& final(self).passphrase_strength == old(self).passphrase_strength
                &&& final(self).continue_button_state == old(self).continue_button_state
                &&& final(self).selected_wallpaper == old(self).selected_wallpaper
                &&& final(self).custom_wallpaper_path == old(self).custom_wallpaper_path
            },
            old(self).current_step == WizardStep::WallpaperPick ==> *final(self) == (WelcomeScreen {
                current_step: WizardStep::Done,
                active_dot: 2,
                ..*old(self)
            }),
            old(self).current_step == WizardStep::Done ==> *final(self) == (WelcomeScreen {
                card_phase: CardPhase::Exiting,
                ..*old(self)
            }),
    {
        match self.current_step {
            WizardStep::VaultSetup => {
                zeroize_string(&mut self.passphrase2);
                zeroize_string(&mut self.passphrase1);
                self.passphrase_visible = false;
                self.current_step = WizardStep::WallpaperPick;
                self.active_dot = 1;
                false
            },
            WizardStep::WallpaperPick => {
                self.current_step = WizardStep::Done;
                self.active_dot = 2;
                false
            },
            WizardStep::Done => {
                self.card_phase = CardPhase::Exiting;
                true
            },
        }
    }

    /// Skips the wallpaper step (keeps the default); the vault step cannot be skipped.
    pub fn skip_step(&mut self)
        ensures
            *final(self) == (if old(self).current_step == WizardStep::WallpaperPick {
                WelcomeScreen { current_step: WizardStep::Done, active_dot: 2, ..*old(self) }
            } else {
                *old(self)
            }),
    {
        if self.current_step == WizardStep::WallpaperPick {
            self.current_step = WizardStep::Done;
            self.active_dot = 2;
        }
    }

    /// First passphrase field: trimmed, rated, and the continue button updated.
    pub fn set_passphrase1(&mut self, value: String)
        ensures
            final(self).passphrase1@ == trimmed(value@),
            final(self).passphrase_strength == strength_of(trimmed(value@)),
            final(self).continue_button_state == continue_after(
                old(self).continue_button_state,
                final(self).passphrase_strength,
                fields_match(final(self).passphrase1@, old(self).passphrase2@),
            ),
            final(self).passphrase2 == old(self).passphrase2,
            final(self).current_step == old(self).current_step,
            final(self).card_phase == old(self).card_phase,
            final(self).is_active == old(self).is_active,
            final(self).passphrase_visible == old(self).passphrase_visible,
            final(self).selected_wallpaper == old(self).selected_wallpaper,
            final(self).custom_wallpaper_path == old(self).custom_wallpaper_path,
            final(self).active_dot == old(self).active_dot,
    {
        self.passphrase1 = str_trim(value.as_str()).to_owned();
        self.passphrase_strength = PassphraseStrength::calculate(self.passphrase1.as_str());
        self.update_continue_state();
    }

    /// Second passphrase field: trimmed, and the continue button updated.
    pub fn set_passphrase2(&mut self, value: String)
        ensures
            final(self).passphrase2@ == trimmed(value@),
            final(self).continue_button_state == continue_after(
                old(self).continue_button_state,
                old(self).passphrase_strength,
                fields_match(old(self).passphrase1@, trimmed(value@)),
            ),
            final(self).passphrase1 == old(self).passphrase1,
            final(self).passphrase_strength == old(self).passphrase_strength,
            final(self).current_step == old(self).current_step,
            final(self).card_phase == old(self).card_phase,
            final(self).is_active == old(self).is_active,
            final(self).passphrase_visible == old(self).passphrase_visible,
            final(self).selected_wallpaper == old(self).selected_wallpaper,
            final(self).custom_wallpaper_path == old(self).custom_wallpaper_path,
            final(self).active_dot == old(self).active_dot,
    {
        self.passphrase2 = str_trim(value.as_str()).to_owned();
        self.update_continue_state();
    }

    /// Show/hide button of the passphrase fields.
    pub fn toggle_passphrase_visibility(&mut self)
        ensures
            *final(self) == (WelcomeScreen { passphrase_visible: !old(self).passphrase_visible, ..*old(self) }),
    {
        self.passphrase_visible = !self.passphrase_visible;
    }

    fn update_continue_state(&mut self)
        ensures
            *final(self) == (WelcomeScreen {
                continue_button_state: continue_after(
                    old(self).continue_button_state,
                    old(self).passphrase_strength,
                    fields_match(old(self).passphrase1@, old(self).passphrase2@),
                ),
                ..*old(self)
            }),
    {
        let strength_ok = self.passphrase_strength.level() >= 1;
        let matched = !self.passphrase1.as_str().is_empty() && self.passphrase1 == self.passphrase2
            && self.passphrase1.as_str().len() >= MIN_PASSPHRASE_LEN;
        if matched && strength_ok {
            self.continue_button_state = ContinueButtonState::Enabled;
        } else if self.continue_button_state == ContinueButtonState::Shake {
        } else {
            self.continue_button_state = ContinueButtonState::Disabled;
        }
    }

    /// Whether Continue can be pressed on the current step.
    pub fn can_continue(&self) -> (b: bool)
        ensures
            b == (self.current_step != WizardStep::VaultSetup || self.continue_button_state
                == ContinueButtonState::Enabled),
    {
        match self.current_step {
            WizardStep::VaultSetup => self.continue_button_state == ContinueButtonState::Enabled,
            WizardStep::WallpaperPick => true,
            WizardStep::Done => true,
        }
    }

    /// The passphrases did not match: the button shakes.
    pub fn trigger_mismatch_shake(&mut self)
        ensures
            *final(self) == (WelcomeScreen { continue_button_state: ContinueButtonState::Shake, ..*old(self) }),
    {
        self.continue_button_state = ContinueButtonState::Shake;
    }

    /// Selects a built-in wallpaper; an index past the built-ins is ignored.
    pub fn select_wallpaper(&mut self, index: usize)
        ensures
            *final(self) == (if index < 3 {
                WelcomeScreen { selected_wallpaper: index, custom_wallpaper_path: None, ..*old(self) }
            } else {
                *old(self)
            }),
    {
        if index < BuiltinWallpaper::ALL.len() {
            self.selected_wallpaper = index;
            self.custom_wallpaper_path = None;
        }
    }

    /// A wallpaper picked from files.
    pub fn set_custom_wallpaper(&mut self, path: String)
        ensures
            *final(self) == (WelcomeScreen { custom_wallpaper_path: Some(path), ..*old(self) }),
    {
        self.custom_wallpaper_path = Some(path);
    }

    /// The discrete half of the per-frame update. `card_settled`: the card's
    /// entrance spring has settled (while entering) or its exit fade has
    /// reached zero and settled (while exiting); `shake_settled`: the shake
    /// spring has settled.
    pub fn update(&mut self, card_settled: bool, shake_settled: bool)
        ensures
            old(self).card_phase == CardPhase::Complete ==> *final(self) == *old(self),
            old(self).card_phase == CardPhase::Exiting ==> *final(self) == (if card_settled {
                WelcomeScreen { card_phase: CardPhase::Complete, is_active: false, ..*old(self) }
            } else {
                *old(self)
            }),
            (old(self).card_phase == CardPhase::Entering || old(self).card_phase == CardPhase::Active) ==> {
                let phase = if card_settled && old(self).card_phase == CardPhase::Entering {
                    CardPhase::Active
                } else {
                    old(self).card_phase
                };
                let button = if old(self).continue_button_state == ContinueButtonState::Shake && shake_settled {
                    continue_after(
                        old(self).continue_button_state,
                        old(self).passphrase_strength,
                        fields_match(old(self).passphrase1@, old(self).passphrase2@),
                    )
                } else {
                    old(self).continue_button_state
                };
                *final(self) == (WelcomeScreen { card_phase: phase, continue_button_state: button, ..*old(self) })
            },
    {
        match self.card_phase {
            CardPhase::Complete => {
                return;
            },
            CardPhase::Exiting => {
                if card_settled {
                    self.card_phase = CardPhase::Complete;
                    self.is_active = false;
                }
                return;
            },
            _ => {},
        }
        if card_settled && self.card_phase == CardPhase::Entering {
            self.card_phase = CardPhase::Active;
        }
        if self.continue_button_state == ContinueButtonState::Shake && shake_settled {
            self.update_continue_state();
        }
    }
}

} // verus!
