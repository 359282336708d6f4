//! Languages, and the texts that the widget shows in each of them.
use vstd::prelude::*;

verus! {

/// A language of the user interface.
#[derive(Clone, Copy, PartialEq, Eq, Structural, Debug)]
pub enum LanguageId {
    English,
    Czech,
    Dutch,
    Spanish,
    French,
    German,
    Japanese,
    Korean,
    TraditionalChinese,
}

/// The texts of the user interface in one language.
#[derive(Clone, Copy)]
pub struct Strings {
    pub window_title: &'static str,
    pub session_window: &'static str,
    pub weekly_window: &'static str,
    pub refresh: &'static str,
    pub update_frequency: &'static str,
    pub one_minute: &'static str,
    pub five_minutes: &'static str,
    pub fifteen_minutes: &'static str,
    pub one_hour: &'static str,
    pub models: &'static str,
    pub claude_code_model: &'static str,
    pub codex_model: &'static str,
    pub layout: &'static str,
    pub layout_side_by_side: &'static str,
    pub layout_stacked: &'static str,
    pub settings: &'static str,
    pub start_with_windows: &'static str,
    pub reset_position: &'static str,
    pub always_on_top: &'static str,
    pub language: &'static str,
    pub system_default: &'static str,
    pub show_widget: &'static str,
    pub exit: &'static str,
    pub check_for_updates: &'static str,
    pub checking_for_updates: &'static str,
    pub applying_update: &'static str,
    pub up_to_date_short: &'static str,
    pub update_to: &'static str,
    pub updates: &'static str,
    pub update_in_progress: &'static str,
    pub up_to_date: &'static str,
    pub update_failed: &'static str,
    pub update_available: &'static str,
    pub update_prompt_now: &'static str,
    pub token_expired_title: &'static str,
    pub token_expired_body: &'static str,
    pub codex_token_expired_title: &'static str,
    pub codex_token_expired_body: &'static str,
}

/// A language's code in the settings, its name in itself, and its texts.
#[derive(Clone, Copy)]
pub struct Language {
    pub code: &'static str,
    pub native_name: &'static str,
    pub strings: Strings,
}

/// All languages.
pub struct Catalog {
    pub english: Language,
    pub czech: Language,
    pub dutch: Language,
    pub spanish: Language,
    pub french: Language,
    pub german: Language,
    pub japanese: Language,
    pub korean: Language,
    pub traditional_chinese: Language,
    /// The order in which the menu lists them.
    pub all: Vec<LanguageId>,
    /// The title of the first model's card, the same in every language.
    pub claude_code_card: &'static str,
}

impl Catalog {
    /// What is known of a language.
    pub open spec fn entry(self, id: LanguageId) -> Language {
        match id {
            LanguageId::English => self.english,
            LanguageId::Czech => self.czech,
            LanguageId::Dutch => self.dutch,
            LanguageId::Spanish => self.spanish,
            LanguageId::French => self.french,
            LanguageId::German => self.german,
            LanguageId::Japanese => self.japanese,
            LanguageId::Korean => self.korean,
            LanguageId::TraditionalChinese => self.traditional_chinese,
        }
    }

    /// Looks a language up.
    pub fn language(&self, id: LanguageId) -> (language: Language)
        ensures
            language == self.entry(id),
    {
        match id {
            LanguageId::English => self.english,
            LanguageId::Czech => self.czech,
            LanguageId::Dutch => self.dutch,
            LanguageId::Spanish => self.spanish,
            LanguageId::French => self.french,
            LanguageId::German => self.german,
            LanguageId::Japanese => self.japanese,
            LanguageId::Korean => self.korean,
            LanguageId::TraditionalChinese => self.traditional_chinese,
        }
    }

    /// The texts of a language.
    pub fn strings(&self, id: LanguageId) -> (strings: Strings)
        ensures
            strings == self.entry(id).strings,
    {
        self.language(id).strings
    }
}

/// Every language has an entry of its own.
pub proof fn languages_have_their_own_entries(catalog: Catalog)
    ensures
        catalog.entry(LanguageId::English) == catalog.english,
        catalog.entry(LanguageId::Czech) == catalog.czech,
        catalog.entry(LanguageId::Dutch) == catalog.dutch,
        catalog.entry(LanguageId::Spanish) == catalog.spanish,
        catalog.entry(LanguageId::French) == catalog.french,
        catalog.entry(LanguageId::German) == catalog.german,
        catalog.entry(LanguageId::Japanese) == catalog.japanese,
        catalog.entry(LanguageId::Korean) == catalog.korean,
        catalog.entry(LanguageId::TraditionalChinese) == catalog.traditional_chinese,
{
}

} // verus!
