//! Requests for several objects at once.
//!
//! The cache is asked for each identifier by itself. What it does not hold is
//! asked for in one batched request, each object that comes back is cached
//! under its own key, and the result is what the cache held followed by what
//! was fetched.

use crate::cache::{stored, visible};
use crate::client_creds::{ClientState, Request, SpotifyClientCredentials};
use crate::error::{ErrorView, RustyError};
use crate::models::album::Album;
use crate::models::artist::Artist;
use crate::models::track::Track;
use crate::text::{decimal, push_decimal};
use serde_json::Value;
use vstd::prelude::*;
use vstd::string::*;

verus! {

/// The collections of which several objects can be asked for at once.
#[derive(Debug, Clone, Copy)]
pub enum Collection {
    Albums,
    Artists,
    Tracks,
}

impl Collection {
    /// The segment of the path that names the collection.
    pub open spec fn name(self) -> Seq<char> {
        match self {
            Collection::Albums => "albums"@,
            Collection::Artists => "artists"@,
            Collection::Tracks => "tracks"@,
        }
    }

    /// What one object of the collection is called in a message.
    pub open spec fn noun(self) -> Seq<char> {
        match self {
            Collection::Albums => "album"@,
            Collection::Artists => "artist"@,
            Collection::Tracks => "track"@,
        }
    }

    /// The most identifiers that one request may hold.
    pub open spec fn max_ids(self) -> nat {
        match self {
            Collection::Albums => 20,
            Collection::Artists => 50,
            Collection::Tracks => 20,
        }
    }

    /// The segment of the path that names the collection.
    pub fn name_str(self) -> (name: &'static str)
        ensures
            name@ == self.name(),
    {
        match self {
            Collection::Albums => "albums",
            Collection::Artists => "artists",
            Collection::Tracks => "tracks",
        }
    }

    /// What one object of the collection is called in a message.
    pub fn noun_str(self) -> (noun: &'static str)
        ensures
            noun@ == self.noun(),
    {
        match self {
            Collection::Albums => "album",
            Collection::Artists => "artist",
            Collection::Tracks => "track",
        }
    }

    /// The most identifiers that one request may hold.
    pub fn limit(self) -> (max: usize)
        ensures
            max == self.max_ids(),
    {
        match self {
            Collection::Albums => 20,
            Collection::Artists => 50,
            Collection::Tracks => 20,
        }
    }
}

/// An object of the catalog that is known by its identifier.
pub trait CatalogItem {
    /// The identifier of the object.
    spec fn item_id(&self) -> Seq<char>;

    /// The identifier of the object.
    fn id(&self) -> (id: &String)
        ensures
            id@ == self.item_id(),
    ;
}

impl CatalogItem for Album {
    open spec fn item_id(&self) -> Seq<char> {
        self.id@
    }

    fn id(&self) -> (id: &String) {
        &self.id
    }
}

impl CatalogItem for Artist {
    open spec fn item_id(&self) -> Seq<char> {
        self.id@
    }

    fn id(&self) -> (id: &String) {
        &self.id
    }
}

impl CatalogItem for Track {
    open spec fn item_id(&self) -> Seq<char> {
        self.id@
    }

    fn id(&self) -> (id: &String) {
        &self.id
    }
}

/// The strings of `v`, each as the sequence of its characters.
pub open spec fn texts(v: Seq<String>) -> Seq<Seq<char>> {
    v.map_values(|s: String| s@)
}

/// `parts` in a row with `sep` between each two neighbours.
pub open spec fn joined(parts: Seq<Seq<char>>, sep: Seq<char>) -> Seq<char>
    decreases parts.len(),
{
    if parts.len() == 0 {
        Seq::empty()
    } else if parts.len() == 1 {
        parts[0]
    } else {
        joined(parts.drop_last(), sep) + sep + parts.last()
    }
}

/// The part of a query that restricts a request to a market, and nothing
/// where no market is given.
pub open spec fn market_query(market: Option<Seq<char>>) -> Seq<char> {
    match market {
        Some(m) => "&market="@ + m,
        None => Seq::empty(),
    }
}

/// The key under which one object is cached: the path of the request for
/// that object alone, with the market where one is given.
pub open spec fn item_key(collection: Collection, id: Seq<char>, market: Option<Seq<char>>) -> Seq<
    char,
> {
    "/"@ + collection.name() + "/"@ + id + market_query(market)
}

/// The path of the batched request for `ids`.
pub open spec fn batch_path(
    collection: Collection,
    ids: Seq<Seq<char>>,
    market: Option<Seq<char>>,
) -> Seq<char> {
    "/"@ + collection.name() + "?ids="@ + joined(ids, ","@) + market_query(market)
}

/// The error for a list of `count` identifiers, if the list breaks a bound:
/// it must hold at least one identifier and at most as many as the
/// collection allows.
pub open spec fn count_error(collection: Collection, count: nat) -> Option<ErrorView> {
    if count == 0 {
        Some(
            ErrorView::InvalidInput(
                "Please provide at least 1 "@ + collection.noun() + " ID."@,
            ),
        )
    } else if count > collection.max_ids() {
        Some(ErrorView::InvalidInput("Maximum of "@ + decimal(collection.max_ids()) + " IDs."@))
    } else {
        None
    }
}

/// Whether the identifier at position `i` was found in the cache in a shape
/// that the caller could decode.
pub open spec fn is_hit<T>(decoded: Seq<Option<T>>, i: int) -> bool {
    0 <= i < decoded.len() && decoded[i] is Some
}

/// The decoded objects of the first `n` identifiers, in their order.
pub open spec fn cached_items<T>(n: nat, decoded: Seq<Option<T>>) -> Seq<T>
    decreases n,
{
    if n == 0 {
        Seq::empty()
    } else {
        let before = cached_items((n - 1) as nat, decoded);
        if is_hit(decoded, n - 1) {
            before.push(decoded[n - 1]->0)
        } else {
            before
        }
    }
}

/// Those of the first `n` identifiers that have to be fetched, in their
/// order: the ones that are no hit.
pub open spec fn missing_ids<T>(ids: Seq<Seq<char>>, n: nat, decoded: Seq<Option<T>>) -> Seq<
    Seq<char>,
>
    decreases n,
{
    if n == 0 {
        Seq::empty()
    } else {
        let before = missing_ids(ids, (n - 1) as nat, decoded);
        if is_hit(decoded, n - 1) {
            before
        } else {
            before.push(ids[n - 1])
        }
    }
}

/// What the cache holds at `now` for each of `ids`.
pub open spec fn lookups(
    cache: Map<Seq<char>, (Value, nat)>,
    collection: Collection,
    ids: Seq<Seq<char>>,
    market: Option<Seq<char>>,
    now: nat,
) -> Seq<Option<Value>> {
    Seq::new(ids.len(), |i: int| visible(cache, item_key(collection, ids[i], market), now))
}

/// The cache after the first `n` of `values` were stored at `now`, each under
/// the key of the identifier at its position, one after the other.
pub open spec fn stored_items(
    cache: Map<Seq<char>, (Value, nat)>,
    ttl: nat,
    collection: Collection,
    market: Option<Seq<char>>,
    ids: Seq<Seq<char>>,
    values: Seq<Value>,
    n: nat,
    now: nat,
) -> Map<Seq<char>, (Value, nat)>
    decreases n,
{
    if n == 0 {
        cache
    } else {
        stored(
            stored_items(cache, ttl, collection, market, ids, values, (n - 1) as nat, now),
            ttl,
            item_key(collection, ids[n - 1], market),
            values[n - 1],
            now,
        )
    }
}

/// The identifiers of `items`.
pub open spec fn item_ids<T: CatalogItem>(items: Seq<T>) -> Seq<Seq<char>> {
    Seq::new(items.len(), |i: int| items[i].item_id())
}

/// The lesser of two lengths.
pub open spec fn shorter(a: nat, b: nat) -> nat {
    if a <= b {
        a
    } else {
        b
    }
}

/// What is left to do for a bulk request once the cache has been asked.
#[derive(Debug)]
pub struct BulkPlan<T> {
    /// The objects that the cache held, in the order of their identifiers.
    pub cached: Vec<T>,
    /// The identifiers that have to be fetched, in their order.
    pub to_fetch: Vec<String>,
    /// The one request that fetches them, and none where nothing is missing.
    pub request: Option<Request>,
}

/// The view of an optional market.
pub open spec fn market_view(market: Option<&str>) -> Option<Seq<char>> {
    match market {
        Some(m) => Some(m@),
        None => None,
    }
}

/// Appends the market part of a query to `out`.
pub fn push_market_query(out: &mut String, market: Option<&str>)
    ensures
        final(out)@ == old(out)@ + market_query(market_view(market)),
{
    match market {
        Some(m) => {
            out.append("&market=");
            out.append(m);
        },
        None => {
        },
    }
}

/// `parts` in a row with `sep` between each two neighbours.
pub fn join(parts: &[String], sep: &str) -> (out: String)
    ensures
        out@ == joined(texts(parts@), sep@),
{
    let mut out = String::new();
    let n = parts.len();
    let mut i: usize = 0;
    while i < n
        invariant
            i <= n,
            n == parts.len(),
            out@ == joined(texts(parts@).take(i as int), sep@),
        decreases n - i,
    {
        let ghost before = texts(parts@).take(i as int);
        let ghost next = texts(parts@).take(i + 1);
        assert(next.drop_last() =~= before);
        if i > 0 {
            out.append(sep);
        }
        out.append(parts[i].as_str());
        assert(out@ =~= joined(next, sep@));
        i = i + 1;
    }
    assert(texts(parts@).take(n as int) =~= texts(parts@));
    out
}

/// The key under which one object of `collection` is cached.
pub fn item_key_string(collection: Collection, id: &str, market: Option<&str>) -> (key: String)
    ensures
        key@ == item_key(collection, id@, market_view(market)),
{
    let mut key = String::from_str("/");
    key.append(collection.name_str());
    key.append("/");
    key.append(id);
    push_market_query(&mut key, market);
    key
}

/// The path of the batched request for `ids`.
pub fn batch_path_string(collection: Collection, ids: &[String], market: Option<&str>) -> (path:
    String)
    ensures
        path@ == batch_path(collection, texts(ids@), market_view(market)),
{
    let mut path = String::from_str("/");
    path.append(collection.name_str());
    path.append("?ids=");
    path.append(join(ids, ",").as_str());
    push_market_query(&mut path, market);
    path
}

/// Holds a list of `count` identifiers to the bounds of `collection`: at
/// least one, and at most as many as the collection allows.
pub fn check_count(collection: Collection, count: usize) -> (r: Result<(), RustyError>)
    ensures
        match r {
            Ok(_) => count_error(collection, count as nat) is None,
            Err(e) => count_error(collection, count as nat) == Some(e@),
        },
{
    if count == 0 {
        let mut msg = String::from_str("Please provide at least 1 ");
        msg.append(collection.noun_str());
        msg.append(" ID.");
        Err(RustyError::InvalidInput(msg))
    } else if count > collection.limit() {
        let mut msg = String::from_str("Maximum of ");
        push_decimal(&mut msg, collection.limit() as u64);
        msg.append(" IDs.");
        Err(RustyError::InvalidInput(msg))
    } else {
        Ok(())
    }
}

/// Sorts the identifiers of a bulk request by what the cache gave: the
/// decoded objects are kept, in order; the identifiers without one are to be
/// fetched, in order; and there is one batched request for them, or none
/// when nothing is missing. `decoded` holds, for each identifier, the cached
/// object if there was one and the caller could decode it.
pub fn plan<T>(
    collection: Collection,
    ids: &[String],
    decoded: Vec<Option<T>>,
    market: Option<&str>,
) -> (plan: BulkPlan<T>)
    ensures
        plan.cached@ == cached_items(ids@.len(), decoded@),
        texts(plan.to_fetch@) == missing_ids(texts(ids@), ids@.len(), decoded@),
        plan.to_fetch@.len() == 0 ==> plan.request is None,
        plan.to_fetch@.len() > 0 ==> plan.request is Some && plan.request->0@ == (
        crate::client_creds::RequestState {
            path: batch_path(collection, texts(plan.to_fetch@), market_view(market)),
            phase: crate::client_creds::Phase::Idle,
        }),
{
    let mut decoded = decoded;
    let ghost given = decoded@;
    let mut cached: Vec<T> = Vec::new();
    let mut to_fetch: Vec<String> = Vec::new();
    let n = ids.len();
    let mut i: usize = 0;
    while i < n
        invariant
            i <= n,
            n == ids.len(),
            decoded@.len() == given.len(),
            forall|j: int| i <= j < decoded@.len() ==> decoded@[j] == given[j],
            cached@ == cached_items(i as nat, given),
            texts(to_fetch@) == missing_ids(texts(ids@), i as nat, given),
        decreases n - i,
    {
        let item: Option<T> = if i < decoded.len() {
            decoded[i].take()
        } else {
            None
        };
        match item {
            Some(object) => {
                cached.push(object);
            },
            None => {
                to_fetch.push(ids[i].clone());
            },
        }
        i = i + 1;
    }
    let request = if to_fetch.len() == 0 {
        None
    } else {
        Some(Request::new(batch_path_string(collection, to_fetch.as_slice(), market)))
    };
    BulkPlan { cached, to_fetch, request }
}

/// The objects that the cache held, followed by those that were fetched.
pub fn combine<T>(cached: Vec<T>, fetched: Vec<T>) -> (all: Vec<T>)
    ensures
        all@ == cached@ + fetched@,
{
    let mut all = cached;
    let mut fetched = fetched;
    all.append(&mut fetched);
    all
}

impl SpotifyClientCredentials {
    /// The first step of a bulk request, at the instant `now` of the cache's
    /// clock. A list of identifiers that breaks a bound of the collection is
    /// refused before the cache is asked. Otherwise the result holds, for
    /// each identifier in order, what the cache has under its key.
    pub fn get_several_at(
        &self,
        collection: Collection,
        ids: &[String],
        market: Option<&str>,
        now: u128,
    ) -> (r: Result<Vec<Option<Value>>, RustyError>)
        ensures
            match r {
                Ok(found) => count_error(collection, ids@.len()) is None && found@ == lookups(
                    self@.cache,
                    collection,
                    texts(ids@),
                    market_view(market),
                    now as nat,
                ),
                Err(e) => count_error(collection, ids@.len()) == Some(e@),
            },
    {
        match check_count(collection, ids.len()) {
            Err(e) => {
                return Err(e);
            },
            Ok(_) => {},
        }
        let mut found: Vec<Option<Value>> = Vec::new();
        let n = ids.len();
        let ghost want = lookups(
            self@.cache,
            collection,
            texts(ids@),
            market_view(market),
            now as nat,
        );
        let mut i: usize = 0;
        while i < n
            invariant
                i <= n,
                n == ids.len(),
                want == lookups(
                    self@.cache,
                    collection,
                    texts(ids@),
                    market_view(market),
                    now as nat,
                ),
                found@ == want.take(i as int),
            decreases n - i,
        {
            let key = item_key_string(collection, ids[i].as_str(), market);
            let hit = self.check_cache_at(key.as_str(), now);
            found.push(hit);
            i = i + 1;
        }
        Ok(found)
    }

    /// The last step of a bulk request, at the instant `now` of the cache's
    /// clock: each fetched object is cached under its own key, as the value
    /// at its position in `values`. Where the two lists differ in length,
    /// the objects without a value are left out.
    pub fn store_fetched_at<T: CatalogItem>(
        &mut self,
        collection: Collection,
        market: Option<&str>,
        fetched: &[T],
        values: &[Value],
        now: u128,
    )
        ensures
            final(self)@ == (ClientState {
                cache: stored_items(
                    old(self)@.cache,
                    old(self)@.ttl,
                    collection,
                    market_view(market),
                    item_ids(fetched@),
                    values@,
                    shorter(fetched@.len(), values@.len()),
                    now as nat,
                ),
                ..old(self)@
            }),
    {
        let n = if fetched.len() <= values.len() {
            fetched.len()
        } else {
            values.len()
        };
        let mut i: usize = 0;
        while i < n
            invariant
                i <= n,
                n == shorter(fetched@.len(), values@.len()),
                self@ == (ClientState {
                    cache: stored_items(
                        old(self)@.cache,
                        old(self)@.ttl,
                        collection,
                        market_view(market),
                        item_ids(fetched@),
                        values@,
                        i as nat,
                        now as nat,
                    ),
                    ..old(self)@
                }),
            decreases n - i,
        {
            let key = item_key_string(collection, fetched[i].id().as_str(), market);
            self.update_cache_at(key, values[i].clone(), now);
            i = i + 1;
        }
    }
}

} // verus!
