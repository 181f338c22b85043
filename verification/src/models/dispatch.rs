//! Dispatches: their IDs and categories.

use vstd::prelude::*;
use crate::text::{owned, push_str};

verus! {

/// The numerical ID of a dispatch.
#[derive(Clone, Copy, Debug, PartialEq, Eq, Structural)]
pub struct DispatchId(pub u32);

/// The categories of dispatches.
#[derive(Clone, Copy, Debug, PartialEq, Eq, Structural)]
pub enum DispatchCategory {
    /// Factbooks officially describe a nation.
    Factbook(FactbookCategory),
    /// Bulletins address gameplay.
    Bulletin(BulletinCategory),
    /// Accounts are articles or stories involving a nation's people.
    Account(AccountCategory),
    /// Meta dispatches tend to address out-of-character and outside-of-role-play situations.
    Meta(MetaCategory),
}

/// The subcategories of factbooks.
/// The `Any` variant is only used in shard queries: no parsed dispatch has it.
#[derive(Clone, Copy, Debug, PartialEq, Eq, Structural)]
#[non_exhaustive]
pub enum FactbookCategory {
    /// Overview.
    Overview,
    /// History.
    History,
    /// Geography.
    Geography,
    /// Culture.
    Culture,
    /// Politics.
    Politics,
    /// Legislation.
    Legislation,
    /// Religion.
    Religion,
    /// Military.
    Military,
    /// Economy.
    Economy,
    /// International.
    International,
    /// Trivia.
    Trivia,
    /// Miscellaneous.
    Miscellaneous,
    /// The type to choose if you are not picking a subcategory.
    Any,
}

/// The name of a factbook subcategory.
pub open spec fn factbook_name(c: FactbookCategory) -> Seq<char> {
    match c {
        FactbookCategory::Overview => "Overview"@,
        FactbookCategory::History => "History"@,
        FactbookCategory::Geography => "Geography"@,
        FactbookCategory::Culture => "Culture"@,
        FactbookCategory::Politics => "Politics"@,
        FactbookCategory::Legislation => "Legislation"@,
        FactbookCategory::Religion => "Religion"@,
        FactbookCategory::Military => "Military"@,
        FactbookCategory::Economy => "Economy"@,
        FactbookCategory::International => "International"@,
        FactbookCategory::Trivia => "Trivia"@,
        FactbookCategory::Miscellaneous => "Miscellaneous"@,
        FactbookCategory::Any => "Any"@,
    }
}

/// The factbook subcategory called `s`, other than `Any`.
pub open spec fn factbook_named(s: Seq<char>) -> Option<FactbookCategory> {
    if s == "Overview"@ {
        Some(FactbookCategory::Overview)
    } else if s == "History"@ {
        Some(FactbookCategory::History)
    } else if s == "Geography"@ {
        Some(FactbookCategory::Geography)
    } else if s == "Culture"@ {
        Some(FactbookCategory::Culture)
    } else if s == "Politics"@ {
        Some(FactbookCategory::Politics)
    } else if s == "Legislation"@ {
        Some(FactbookCategory::Legislation)
    } else if s == "Religion"@ {
        Some(FactbookCategory::Religion)
    } else if s == "Military"@ {
        Some(FactbookCategory::Military)
    } else if s == "Economy"@ {
        Some(FactbookCategory::Economy)
    } else if s == "International"@ {
        Some(FactbookCategory::International)
    } else if s == "Trivia"@ {
        Some(FactbookCategory::Trivia)
    } else if s == "Miscellaneous"@ {
        Some(FactbookCategory::Miscellaneous)
    } else {
        None
    }
}

impl FactbookCategory {
    /// The name of the subcategory.
    pub fn as_str(&self) -> (r: &'static str)
        ensures
            r@ == factbook_name(*self),
    {
        match self {
            FactbookCategory::Overview => "Overview",
            FactbookCategory::History => "History",
            FactbookCategory::Geography => "Geography",
            FactbookCategory::Culture => "Culture",
            FactbookCategory::Politics => "Politics",
            FactbookCategory::Legislation => "Legislation",
            FactbookCategory::Religion => "Religion",
            FactbookCategory::Military => "Military",
            FactbookCategory::Economy => "Economy",
            FactbookCategory::International => "International",
            FactbookCategory::Trivia => "Trivia",
            FactbookCategory::Miscellaneous => "Miscellaneous",
            FactbookCategory::Any => "Any",
        }
    }
}

/// The subcategories of bulletins.
/// The `Any` variant is only used in shard queries: no parsed dispatch has it.
#[derive(Clone, Copy, Debug, PartialEq, Eq, Structural)]
#[non_exhaustive]
pub enum BulletinCategory {
    /// Policy.
    Policy,
    /// News.
    News,
    /// Opinion.
    Opinion,
    /// Campaign.
    Campaign,
    /// The type to choose if you are not picking a subcategory.
    Any,
}

/// The name of a bulletin subcategory.
pub open spec fn bulletin_name(c: BulletinCategory) -> Seq<char> {
    match c {
        BulletinCategory::Policy => "Policy"@,
        BulletinCategory::News => "News"@,
        BulletinCategory::Opinion => "Opinion"@,
        BulletinCategory::Campaign => "Campaign"@,
        BulletinCategory::Any => "Any"@,
    }
}

/// The bulletin subcategory called `s`, other than `Any`.
pub open spec fn bulletin_named(s: Seq<char>) -> Option<BulletinCategory> {
    if s == "Policy"@ {
        Some(BulletinCategory::Policy)
    } else if s == "News"@ {
        Some(BulletinCategory::News)
    } else if s == "Opinion"@ {
        Some(BulletinCategory::Opinion)
    } else if s == "Campaign"@ {
        Some(BulletinCategory::Campaign)
    } else {
        None
    }
}

impl BulletinCategory {
    /// The name of the subcategory.
    pub fn as_str(&self) -> (r: &'static str)
        ensures
            r@ == bulletin_name(*self),
    {
        match self {
            BulletinCategory::Policy => "Policy",
            BulletinCategory::News => "News",
            BulletinCategory::Opinion => "Opinion",
            BulletinCategory::Campaign => "Campaign",
            BulletinCategory::Any => "Any",
        }
    }
}

/// The subcategories of accounts.
/// The `Any` variant is only used in shard queries: no parsed dispatch has it.
#[derive(Clone, Copy, Debug, PartialEq, Eq, Structural)]
#[non_exhaustive]
pub enum AccountCategory {
    /// Military.
    Military,
    /// Trade.
    Trade,
    /// Sport.
    Sport,
    /// Drama.
    Drama,
    /// Diplomacy.
    Diplomacy,
    /// Science.
    Science,
    /// Culture.
    Culture,
    /// Other.
    Other,
    /// The type to choose if you are not picking a subcategory.
    Any,
}

/// The name of a account subcategory.
pub open spec fn account_name(c: AccountCategory) -> Seq<char> {
    match c {
        AccountCategory::Military => "Military"@,
        AccountCategory::Trade => "Trade"@,
        AccountCategory::Sport => "Sport"@,
        AccountCategory::Drama => "Drama"@,
        AccountCategory::Diplomacy => "Diplomacy"@,
        AccountCategory::Science => "Science"@,
        AccountCategory::Culture => "Culture"@,
        AccountCategory::Other => "Other"@,
        AccountCategory::Any => "Any"@,
    }
}

/// The account subcategory called `s`, other than `Any`.
pub open spec fn account_named(s: Seq<char>) -> Option<AccountCategory> {
    if s == "Military"@ {
        Some(AccountCategory::Military)
    } else if s == "Trade"@ {
        Some(AccountCategory::Trade)
    } else if s == "Sport"@ {
        Some(AccountCategory::Sport)
    } else if s == "Drama"@ {
        Some(AccountCategory::Drama)
    } else if s == "Diplomacy"@ {
        Some(AccountCategory::Diplomacy)
    } else if s == "Science"@ {
        Some(AccountCategory::Science)
    } else if s == "Culture"@ {
        Some(AccountCategory::Culture)
    } else if s == "Other"@ {
        Some(AccountCategory::Other)
    } else {
        None
    }
}

impl AccountCategory {
    /// The name of the subcategory.
    pub fn as_str(&self) -> (r: &'static str)
        ensures
            r@ == account_name(*self),
    {
        match self {
            AccountCategory::Military => "Military",
            AccountCategory::Trade => "Trade",
            AccountCategory::Sport => "Sport",
            AccountCategory::Drama => "Drama",
            AccountCategory::Diplomacy => "Diplomacy",
            AccountCategory::Science => "Science",
            AccountCategory::Culture => "Culture",
            AccountCategory::Other => "Other",
            AccountCategory::Any => "Any",
        }
    }
}

/// The subcategories of meta-category dispatches.
/// The `Any` variant is only used in shard queries: no parsed dispatch has it.
#[derive(Clone, Copy, Debug, PartialEq, Eq, Structural)]
#[non_exhaustive]
pub enum MetaCategory {
    /// Gameplay.
    Gameplay,
    /// Reference.
    Reference,
    /// The type to choose if you are not picking a subcategory.
    Any,
}

/// The name of a meta subcategory.
pub open spec fn meta_name(c: MetaCategory) -> Seq<char> {
    match c {
        MetaCategory::Gameplay => "Gameplay"@,
        MetaCategory::Reference => "Reference"@,
        MetaCategory::Any => "Any"@,
    }
}

/// The meta subcategory called `s`, other than `Any`.
pub open spec fn meta_named(s: Seq<char>) -> Option<MetaCategory> {
    if s == "Gameplay"@ {
        Some(MetaCategory::Gameplay)
    } else if s == "Reference"@ {
        Some(MetaCategory::Reference)
    } else {
        None
    }
}

impl MetaCategory {
    /// The name of the subcategory.
    pub fn as_str(&self) -> (r: &'static str)
        ensures
            r@ == meta_name(*self),
    {
        match self {
            MetaCategory::Gameplay => "Gameplay",
            MetaCategory::Reference => "Reference",
            MetaCategory::Any => "Any",
        }
    }
}

/// The name of a main category.
pub open spec fn main_category_name(c: DispatchCategory) -> Seq<char> {
    match c {
        DispatchCategory::Factbook(_) => "Factbook"@,
        DispatchCategory::Bulletin(_) => "Bulletin"@,
        DispatchCategory::Account(_) => "Account"@,
        DispatchCategory::Meta(_) => "Meta"@,
    }
}

/// The name of the subcategory of a category.
pub open spec fn sub_category_name(c: DispatchCategory) -> Seq<char> {
    match c {
        DispatchCategory::Factbook(s) => factbook_name(s),
        DispatchCategory::Bulletin(s) => bulletin_name(s),
        DispatchCategory::Account(s) => account_name(s),
        DispatchCategory::Meta(s) => meta_name(s),
    }
}

/// How a category is written: `Main: Sub`.
pub open spec fn category_text(c: DispatchCategory) -> Seq<char> {
    main_category_name(c) + ": "@ + sub_category_name(c)
}

/// Whether a category names a subcategory (all but the `Any` ones).
pub open spec fn is_specific(c: DispatchCategory) -> bool {
    match c {
        DispatchCategory::Factbook(s) => s != FactbookCategory::Any,
        DispatchCategory::Bulletin(s) => s != BulletinCategory::Any,
        DispatchCategory::Account(s) => s != AccountCategory::Any,
        DispatchCategory::Meta(s) => s != MetaCategory::Any,
    }
}

impl DispatchCategory {
    /// The name of the main category.
    pub fn main_name(&self) -> (r: &'static str)
        ensures
            r@ == main_category_name(*self),
    {
        match self {
            DispatchCategory::Factbook(_) => "Factbook",
            DispatchCategory::Bulletin(_) => "Bulletin",
            DispatchCategory::Account(_) => "Account",
            DispatchCategory::Meta(_) => "Meta",
        }
    }

    /// The name of the subcategory.
    pub fn sub_name(&self) -> (r: &'static str)
        ensures
            r@ == sub_category_name(*self),
    {
        match self {
            DispatchCategory::Factbook(s) => s.as_str(),
            DispatchCategory::Bulletin(s) => s.as_str(),
            DispatchCategory::Account(s) => s.as_str(),
            DispatchCategory::Meta(s) => s.as_str(),
        }
    }

    /// The category as text: `Main: Sub`.
    pub fn to_string(&self) -> (r: String)
        ensures
            r@ == category_text(*self),
    {
        let mut r = owned(self.main_name());
        push_str(&mut r, ": ");
        push_str(&mut r, self.sub_name());
        r
    }
}

} // verus!
