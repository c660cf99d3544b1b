//! The settings that the module is run with.

use crate::text::same_text;
use vstd::prelude::*;
use vstd::string::*;

verus! {

/// Whether the module is enabled, where the settings do not say: it is.
pub fn default_true() -> (enabled: bool)
    ensures
        enabled,
{
    true
}

/// The timeout of a request in milliseconds, where the settings do not say.
pub fn default_timeout() -> (millis: u64)
    ensures
        millis == 3000,
{
    3000
}

/// General settings.
#[derive(Debug, Clone, Copy, PartialEq, Eq, Structural)]
pub struct GeneralConfiguration {
    pub enable: bool,
    pub timeout: u64,
}

impl Default for GeneralConfiguration {
    fn default() -> (general: Self)
        ensures
            general == (GeneralConfiguration { enable: false, timeout: 0 }),
    {
        GeneralConfiguration { enable: false, timeout: 0 }
    }
}

/// The cards whose scores are sent. An empty list lets every card through.
#[derive(Debug, Clone)]
pub struct CardsConfiguration {
    pub whitelist: Vec<String>,
}

/// `true` exactly when a whitelist lets the card through: the list is empty
/// or names the card.
pub open spec fn whitelist_allows(whitelist: Seq<Seq<char>>, card: Seq<char>) -> bool {
    whitelist.len() == 0 || whitelist.contains(card)
}

impl View for CardsConfiguration {
    type V = Seq<Seq<char>>;

    open spec fn view(&self) -> Seq<Seq<char>> {
        self.whitelist@.map_values(|card: String| card@)
    }
}

impl CardsConfiguration {
    /// Tells whether scores of `card` may be sent.
    pub fn allows(&self, card: &str) -> (allowed: bool)
        ensures
            allowed == whitelist_allows(self@, card@),
    {
        if self.whitelist.len() == 0 {
            return true;
        }
        let mut at: usize = 0;
        while at < self.whitelist.len()
            invariant
                at <= self.whitelist.len(),
                self@.len() == self.whitelist.len(),
                forall|k: int| 0 <= k < at ==> self@[k] != card@,
            decreases self.whitelist.len() - at,
        {
            assert(self@[at as int] == self.whitelist@[at as int]@);
            if same_text(self.whitelist[at].as_str(), card) {
                return true;
            }
            at = at + 1;
        }
        false
    }
}

impl Default for CardsConfiguration {
    fn default() -> (cards: Self)
        ensures
            cards@ == Seq::<Seq<char>>::empty(),
    {
        let cards = CardsConfiguration { whitelist: Vec::new() };
        assert(cards@ =~= Seq::<Seq<char>>::empty());
        cards
    }
}

/// Where the scoring service is, and the key that it knows the sender by.
#[derive(Debug, Clone)]
pub struct TachiConfiguration {
    pub base_url: String,
    pub api_key: String,
}

impl Default for TachiConfiguration {
    fn default() -> (tachi: Self)
        ensures
            tachi.base_url@ == Seq::<char>::empty(),
            tachi.api_key@ == Seq::<char>::empty(),
    {
        TachiConfiguration { base_url: String::new(), api_key: String::new() }
    }
}

/// All settings.
#[derive(Debug, Clone)]
pub struct Configuration {
    pub general: GeneralConfiguration,
    pub cards: CardsConfiguration,
    pub tachi: TachiConfiguration,
}

impl Default for Configuration {
    fn default() -> (configuration: Self)
        ensures
            configuration.general == (GeneralConfiguration { enable: false, timeout: 0 }),
            configuration.cards@ == Seq::<Seq<char>>::empty(),
            configuration.tachi.base_url@ == Seq::<char>::empty(),
            configuration.tachi.api_key@ == Seq::<char>::empty(),
    {
        Configuration {
            general: GeneralConfiguration::default(),
            cards: CardsConfiguration::default(),
            tachi: TachiConfiguration::default(),
        }
    }
}

} // verus!
