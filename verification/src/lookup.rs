//! Tables from the ledger's identifiers to names and instruments.

use crate::model::{Account, AccountView, Instrument, InstrumentView, Tag, TagView};
use crate::text::{decimal_text, i32_text};
use std::collections::HashMap;
use vstd::hash_map::StringHashMap;
use vstd::prelude::*;

verus! {

/// Tables built from one snapshot of the ledger: titles of accounts and
/// tags, symbols of instruments, and the instrument of each account.
pub struct LookupMaps {
    accounts: StringHashMap<String>,
    tags: StringHashMap<String>,
    instruments: HashMap<i32, String>,
    account_instruments: StringHashMap<i32>,
}

/// The tables of a [`LookupMaps`] as maps over sequences of characters.
pub ghost struct LookupView {
    /// Account id to title.
    pub accounts: Map<Seq<char>, Seq<char>>,
    /// Tag id to title.
    pub tags: Map<Seq<char>, Seq<char>>,
    /// Instrument id to currency symbol.
    pub instruments: Map<i32, Seq<char>>,
    /// Account id to instrument id.
    pub account_instruments: Map<Seq<char>, i32>,
}

/// The titles of the accounts by id. Of two accounts with one id the later
/// one counts.
pub open spec fn account_titles(accounts: Seq<AccountView>) -> Map<Seq<char>, Seq<char>>
    decreases accounts.len(),
{
    if accounts.len() == 0 {
        Map::empty()
    } else {
        account_titles(accounts.drop_last()).insert(accounts.last().id, accounts.last().title)
    }
}

/// The instruments of the accounts by account id, for the accounts that
/// have one. Of two such accounts with one id the later one counts.
pub open spec fn account_instruments(accounts: Seq<AccountView>) -> Map<Seq<char>, i32>
    decreases accounts.len(),
{
    if accounts.len() == 0 {
        Map::empty()
    } else {
        let earlier = account_instruments(accounts.drop_last());
        match accounts.last().instrument {
            Some(instrument) => earlier.insert(accounts.last().id, instrument),
            None => earlier,
        }
    }
}

/// The titles of the tags by id. Of two tags with one id the later one
/// counts.
pub open spec fn tag_titles(tags: Seq<TagView>) -> Map<Seq<char>, Seq<char>>
    decreases tags.len(),
{
    if tags.len() == 0 {
        Map::empty()
    } else {
        tag_titles(tags.drop_last()).insert(tags.last().id, tags.last().title)
    }
}

/// The symbols of the instruments by id. Of two instruments with one id the
/// later one counts.
pub open spec fn instrument_symbols(instruments: Seq<InstrumentView>) -> Map<i32, Seq<char>>
    decreases instruments.len(),
{
    if instruments.len() == 0 {
        Map::empty()
    } else {
        instrument_symbols(instruments.drop_last()).insert(
            instruments.last().id,
            instruments.last().symbol,
        )
    }
}

/// The tables of one snapshot.
pub open spec fn snapshot_tables(
    accounts: Seq<AccountView>,
    tags: Seq<TagView>,
    instruments: Seq<InstrumentView>,
) -> LookupView {
    LookupView {
        accounts: account_titles(accounts),
        tags: tag_titles(tags),
        instruments: instrument_symbols(instruments),
        account_instruments: account_instruments(accounts),
    }
}

/// The tables hold a title for an id exactly where some account has the id.
pub proof fn titles_cover_the_accounts(accounts: Seq<AccountView>, id: Seq<char>)
    ensures
        account_titles(accounts).contains_key(id) <==> exists|i: int|
            0 <= i < accounts.len() && (#[trigger] accounts[i]).id == id,
    decreases accounts.len(),
{
    if accounts.len() > 0 {
        let earlier = accounts.drop_last();
        titles_cover_the_accounts(earlier, id);
        if accounts.last().id == id {
            assert(accounts[accounts.len() - 1].id == id);
        } else if account_titles(accounts).contains_key(id) {
            let i = choose|i: int| 0 <= i < earlier.len() && (#[trigger] earlier[i]).id == id;
            assert(accounts[i].id == id);
        } else if exists|i: int| 0 <= i < accounts.len() && (#[trigger] accounts[i]).id == id {
            let i = choose|i: int| 0 <= i < accounts.len() && (#[trigger] accounts[i]).id == id;
            assert(earlier[i].id == id);
        }
    }
}

/// The title that the tables hold for an id is that of the last account
/// with the id.
pub proof fn titles_follow_the_last_account(accounts: Seq<AccountView>, id: Seq<char>, last: int)
    requires
        0 <= last < accounts.len(),
        accounts[last].id == id,
        forall|later: int| last < later < accounts.len() ==> (#[trigger] accounts[later]).id != id,
    ensures
        account_titles(accounts).contains_key(id),
        account_titles(accounts)[id] == accounts[last].title,
    decreases accounts.len(),
{
    if last < accounts.len() - 1 {
        let earlier = accounts.drop_last();
        assert(accounts[accounts.len() - 1].id != id);
        assert forall|later: int| last < later < earlier.len() implies (#[trigger] earlier[later]).id
            != id by {
            assert(accounts[later].id != id);
        }
        titles_follow_the_last_account(earlier, id, last);
    }
}

impl View for LookupMaps {
    type V = LookupView;

    closed spec fn view(&self) -> LookupView {
        LookupView {
            accounts: self.accounts@.map_values(|title: String| title@),
            tags: self.tags@.map_values(|title: String| title@),
            instruments: self.instruments@.map_values(|symbol: String| symbol@),
            account_instruments: self.account_instruments@,
        }
    }
}

impl LookupMaps {
    /// Tables that know no account, tag or instrument.
    pub fn new() -> (maps: LookupMaps)
        ensures
            maps@ == snapshot_tables(Seq::empty(), Seq::empty(), Seq::empty()),
    {
        let maps = LookupMaps {
            accounts: StringHashMap::new(),
            tags: StringHashMap::new(),
            instruments: HashMap::new(),
            account_instruments: StringHashMap::new(),
        };
        assert(maps@.accounts =~= Map::empty());
        assert(maps@.tags =~= Map::empty());
        assert(maps@.instruments =~= Map::empty());
        maps
    }

    /// The title of an account, or the id itself where the account is
    /// unknown.
    pub fn account_name(&self, id: &str) -> (name: String)
        ensures
            name@ == if self@.accounts.contains_key(id@) {
                self@.accounts[id@]
            } else {
                id@
            },
    {
        match self.accounts.get(id) {
            Some(title) => title.clone(),
            None => id.to_owned(),
        }
    }

    /// The title of a tag, or the id itself where the tag is unknown.
    pub fn tag_name(&self, id: &str) -> (name: String)
        ensures
            name@ == if self@.tags.contains_key(id@) {
                self@.tags[id@]
            } else {
                id@
            },
    {
        match self.tags.get(id) {
            Some(title) => title.clone(),
            None => id.to_owned(),
        }
    }

    /// The currency symbol of an instrument, or its id in decimal notation
    /// where the instrument is unknown.
    pub fn instrument_symbol(&self, id: i32) -> (symbol: String)
        ensures
            symbol@ == if self@.instruments.contains_key(id) {
                self@.instruments[id]
            } else {
                decimal_text(id as int)
            },
    {
        match self.instruments.get(&id) {
            Some(symbol) => symbol.clone(),
            None => i32_text(id),
        }
    }

    /// The instrument of an account, where the tables hold one.
    pub fn account_instrument(&self, id: &str) -> (instrument: Option<i32>)
        ensures
            instrument == if self@.account_instruments.contains_key(id@) {
                Some(self@.account_instruments[id@])
            } else {
                None
            },
    {
        match self.account_instruments.get(id) {
            Some(instrument) => Some(*instrument),
            None => None,
        }
    }
}

impl Default for LookupMaps {
    fn default() -> (maps: LookupMaps)
        ensures
            maps@ == snapshot_tables(Seq::empty(), Seq::empty(), Seq::empty()),
    {
        LookupMaps::new()
    }
}

/// Builds the tables from a snapshot of the ledger's accounts, tags and
/// instruments.
pub fn build_lookup_maps(
    accounts: &Vec<Account>,
    tags: &Vec<Tag>,
    instruments: &Vec<Instrument>,
) -> (maps: LookupMaps)
    ensures
        maps@ == snapshot_tables(
            accounts.deep_view(),
            tags.deep_view(),
            instruments.deep_view(),
        ),
{
    let mut maps = LookupMaps::new();
    let mut i: usize = 0;
    while i < accounts.len()
        invariant
            i <= accounts.len(),
            maps@ == snapshot_tables(
                accounts.deep_view().take(i as int),
                Seq::empty(),
                Seq::empty(),
            ),
        decreases accounts.len() - i,
    {
        let account = &accounts[i];
        maps.accounts.insert(account.id.clone(), account.title.clone());
        if let Some(instrument) = account.instrument {
            maps.account_instruments.insert(account.id.clone(), instrument);
        }
        proof {
            let before = accounts.deep_view().take(i as int);
            let after = accounts.deep_view().take(i + 1);
            assert(after.drop_last() =~= before);
            assert(after.last() == account@);
            assert(maps@.accounts =~= account_titles(after));
            assert(maps@.account_instruments =~= account_instruments(after));
        }
        i += 1;
    }
    assert(accounts.deep_view().take(accounts.len() as int) =~= accounts.deep_view());
    let mut j: usize = 0;
    while j < tags.len()
        invariant
            j <= tags.len(),
            maps@ == snapshot_tables(
                accounts.deep_view(),
                tags.deep_view().take(j as int),
                Seq::empty(),
            ),
        decreases tags.len() - j,
    {
        let tag = &tags[j];
        maps.tags.insert(tag.id.clone(), tag.title.clone());
        proof {
            let before = tags.deep_view().take(j as int);
            let after = tags.deep_view().take(j + 1);
            assert(after.drop_last() =~= before);
            assert(after.last() == tag@);
            assert(maps@.tags =~= tag_titles(after));
        }
        j += 1;
    }
    assert(tags.deep_view().take(tags.len() as int) =~= tags.deep_view());
    let mut k: usize = 0;
    while k < instruments.len()
        invariant
            k <= instruments.len(),
            maps@ == snapshot_tables(
                accounts.deep_view(),
                tags.deep_view(),
                instruments.deep_view().take(k as int),
            ),
        decreases instruments.len() - k,
    {
        let instrument = &instruments[k];
        maps.instruments.insert(instrument.id, instrument.symbol.clone());
        proof {
            let before = instruments.deep_view().take(k as int);
            let after = instruments.deep_view().take(k + 1);
            assert(after.drop_last() =~= before);
            assert(after.last() == instrument@);
            assert(maps@.instruments =~= instrument_symbols(after));
        }
        k += 1;
    }
    assert(instruments.deep_view().take(instruments.len() as int) =~= instruments.deep_view());
    maps
}

} // verus!
