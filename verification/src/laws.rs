//! What holds of every run of a request, whatever the caller reports.

use crate::bulk::{
    cached_items, is_hit, item_key, missing_ids, stored_items, Collection,
};
use crate::cache::visible;
use crate::client_creds::{
    fail, retry_after_seconds, step, ActionView, ClientState, Event, HttpReply, Now, Phase,
    RequestState,
};
use crate::error::ErrorView;
use crate::text::{ascii, decimal, lemma_decimal_parses_back};
use vstd::prelude::*;

verus! {

/// The place of a phase in the order in which a request passes through them.
pub open spec fn rank(phase: Phase) -> nat {
    match phase {
        Phase::Idle => 0,
        Phase::Decoding => 1,
        Phase::Authorizing => 2,
        Phase::ParsingGrant => 3,
        Phase::Fetching => 4,
        Phase::ParsingBody => 5,
        Phase::Finished => 6,
    }
}

/// The actions that a request answers, one after the other, to a sequence
/// of events with the instants at which they are reported.
pub open spec fn actions(
    client: ClientState,
    request: RequestState,
    events: Seq<(Event, Now)>,
) -> Seq<ActionView>
    decreases events.len(),
{
    if events.len() == 0 {
        Seq::empty()
    } else {
        let (client1, request1, action) = step(client, request, events[0].0, events[0].1);
        seq![action] + actions(client1, request1, events.drop_first())
    }
}

/// How many of `actions` send a GET to the API.
pub open spec fn sends(actions: Seq<ActionView>) -> nat
    decreases actions.len(),
{
    if actions.len() == 0 {
        0
    } else {
        let rest = sends(actions.drop_first());
        if actions[0] is Send {
            rest + 1
        } else {
            rest
        }
    }
}

/// How many of `actions` ask the token endpoint for a token.
pub open spec fn refreshes(actions: Seq<ActionView>) -> nat
    decreases actions.len(),
{
    if actions.len() == 0 {
        0
    } else {
        let rest = refreshes(actions.drop_first());
        if actions[0] is Authorize {
            rest + 1
        } else {
            rest
        }
    }
}

/// A request whose path is in the cache, and whose cached value the caller
/// can decode, is done after two steps that neither ask for a token nor send
/// anything, and that leave the client as it was.
pub proof fn lemma_cache_hit_needs_no_token_and_no_network(
    client: ClientState,
    request: RequestState,
    now: Now,
    later: Now,
)
    requires
        request.phase is Idle,
        visible(client.cache, request.path, now.cache as nat) is Some,
    ensures
        step(client, request, Event::Start, now) == (
            client,
            request.at(Phase::Decoding),
            ActionView::Decode(visible(client.cache, request.path, now.cache as nat)->0),
        ),
        step(client, request.at(Phase::Decoding), Event::Decoded(true), later) == (
            client,
            request.at(Phase::Finished),
            ActionView::Done,
        ),
{
}

/// Every step moves a request forward in the order of the phases, or leaves
/// it finished. It sends only on the way into `Fetching` and asks for a
/// token only on the way into `Authorizing`, and a request that is done or
/// has failed is finished.
pub proof fn lemma_step_moves_forward(
    client: ClientState,
    request: RequestState,
    event: Event,
    now: Now,
)
    ensures
        ({
            let (client1, request1, action) = step(client, request, event, now);
            &&& request1.path == request.path
            &&& rank(request1.phase) > rank(request.phase) || (request.phase is Finished
                && request1.phase is Finished)
            &&& action is Send ==> request1.phase is Fetching
            &&& action is Authorize ==> request1.phase is Authorizing
            &&& (action is Done || action is Fail) ==> request1.phase is Finished
            &&& client1.ttl == client.ttl
        }),
{
}

/// Whatever the caller reports, a request sends at most one GET to the API,
/// and none once it has sent one.
pub proof fn lemma_at_most_one_send(
    client: ClientState,
    request: RequestState,
    events: Seq<(Event, Now)>,
)
    ensures
        sends(actions(client, request, events)) <= 1,
        rank(request.phase) >= rank(Phase::Fetching) ==> sends(actions(client, request, events))
            == 0,
    decreases events.len(),
{
    if events.len() > 0 {
        let (client1, request1, action) = step(client, request, events[0].0, events[0].1);
        let rest = actions(client1, request1, events.drop_first());
        lemma_step_moves_forward(client, request, events[0].0, events[0].1);
        lemma_at_most_one_send(client1, request1, events.drop_first());
        assert((seq![action] + rest).drop_first() == rest);
    }
}

/// Whatever the caller reports, a request asks the token endpoint at most
/// once, and not at all once it has asked.
pub proof fn lemma_at_most_one_refresh(
    client: ClientState,
    request: RequestState,
    events: Seq<(Event, Now)>,
)
    ensures
        refreshes(actions(client, request, events)) <= 1,
        rank(request.phase) >= rank(Phase::Authorizing) ==> refreshes(
            actions(client, request, events),
        ) == 0,
    decreases events.len(),
{
    if events.len() > 0 {
        let (client1, request1, action) = step(client, request, events[0].0, events[0].1);
        let rest = actions(client1, request1, events.drop_first());
        lemma_step_moves_forward(client, request, events[0].0, events[0].1);
        lemma_at_most_one_refresh(client1, request1, events.drop_first());
        assert((seq![action] + rest).drop_first() == rest);
    }
}

/// A request that begins with a valid token in hand never asks the token
/// endpoint; one that begins without, and finds nothing in the cache, asks
/// it at its first step.
pub proof fn lemma_refresh_only_without_valid_token(
    client: ClientState,
    request: RequestState,
    now: Now,
)
    requires
        request.phase is Idle,
        visible(client.cache, request.path, now.cache as nat) is None,
    ensures
        client.token.valid_at(now.unix as int) ==> step(client, request, Event::Start, now).2
            is Send,
        !client.token.valid_at(now.unix as int) ==> step(client, request, Event::Start, now).2
            == ActionView::Authorize(client.token.refresh_form()),
{
}

/// Only a granted token and a parsed body change the client. Every other
/// step leaves the token and the cache exactly as they were, so that a
/// request that is given up between two steps has changed nothing by halves.
pub proof fn lemma_only_grants_and_bodies_change_the_client(
    client: ClientState,
    request: RequestState,
    event: Event,
    now: Now,
)
    ensures
        !(request.phase is ParsingGrant && event matches Event::Grant(Ok(_))) && !(request.phase
            is ParsingBody && event matches Event::Body(Ok(_))) ==> step(
            client,
            request,
            event,
            now,
        ).0 == client,
        step(client, request, event, now).0.token != client.token ==> request.phase
            is ParsingGrant,
        step(client, request, event, now).0.cache != client.cache ==> request.phase
            is ParsingBody,
{
}

/// A token that was granted serves the requests that start before the
/// margin ahead of its end without another refresh, and none that start
/// later.
pub proof fn lemma_granted_token_serves_later_requests(
    client: ClientState,
    request: RequestState,
    grant: crate::models::auth::ClientCredsAuthResponse,
    now: Now,
    next: RequestState,
    later: Now,
)
    requires
        request.phase is ParsingGrant,
        next.phase is Idle,
    ensures
        ({
            let (client1, request1, action) = step(client, request, Event::Grant(Ok(grant)), now);
            let fresh = (ClientState { token: client1.token, ..client });
            &&& action == (ActionView::Send {
                url: crate::client_creds::api_url(request.path),
                authorization: crate::client_creds::bearer(grant.access_token@),
            })
            &&& client1 == fresh
            &&& visible(client1.cache, next.path, later.cache as nat) is None ==> {
                if later.unix < now.unix + grant.expires_in - 60 {
                    step(client1, next, Event::Start, later).2 == (ActionView::Send {
                        url: crate::client_creds::api_url(next.path),
                        authorization: crate::client_creds::bearer(grant.access_token@),
                    })
                } else {
                    step(client1, next, Event::Start, later).2 is Authorize
                }
            }
        }),
{
}

/// A reply with status 429 ends the request without a change to the client:
/// as a rate limit of as many seconds as its `Retry-After` header spells,
/// and as unexpected where the header is missing or spells no number.
pub proof fn lemma_rate_limited_reply(
    client: ClientState,
    request: RequestState,
    reply: HttpReply,
    now: Now,
)
    requires
        request.phase is Fetching,
        reply.status == 429,
    ensures
        step(client, request, Event::Reply(reply), now) == fail(
            client,
            request,
            match retry_after_seconds(reply.retry_after) {
                Some(seconds) => ErrorView::SpotifyRateLimited(seconds),
                None => ErrorView::Unexpected(
                    "Rate limited by Spotify Web API, but no retry time provided."@,
                ),
            },
        ),
{
}

/// A reply with status 429 whose `Retry-After` header is a number of seconds
/// in decimal is a rate limit of exactly that many seconds.
pub proof fn lemma_retry_after_is_read_in_decimal(
    client: ClientState,
    request: RequestState,
    reply: HttpReply,
    seconds: u64,
    now: Now,
)
    requires
        request.phase is Fetching,
        reply.status == 429,
        reply.retry_after is Some,
        reply.retry_after->0@ == ascii(decimal(seconds as nat)),
    ensures
        step(client, request, Event::Reply(reply), now).2 == ActionView::Fail(
            ErrorView::SpotifyRateLimited(seconds),
        ),
{
    lemma_decimal_parses_back(seconds);
}

/// A body that parsed is in the cache afterwards: a request for the same
/// path that starts before one time-to-live has passed is answered from the
/// cache.
pub proof fn lemma_fetched_value_is_cached(
    client: ClientState,
    request: RequestState,
    value: serde_json::Value,
    now: Now,
    later: Now,
)
    requires
        request.phase is ParsingBody,
        later.cache < now.cache + client.ttl,
    ensures
        ({
            let (client1, request1, action) = step(client, request, Event::Body(Ok(value)), now);
            &&& action is Done
            &&& visible(client1.cache, request.path, later.cache as nat) == Some(value)
            &&& step(client1, request.at(Phase::Idle), Event::Start, later).2
                == ActionView::Decode(value)
        }),
{
}

/// Every identifier of a bulk request is either answered from the cache or
/// fetched, and none is both.
pub proof fn lemma_bulk_splits_the_identifiers<T>(
    ids: Seq<Seq<char>>,
    n: nat,
    decoded: Seq<Option<T>>,
)
    ensures
        cached_items(n, decoded).len() + missing_ids(ids, n, decoded).len() == n,
    decreases n,
{
    if n > 0 {
        lemma_bulk_splits_the_identifiers(ids, (n - 1) as nat, decoded);
    }
}

/// When the cache answers for every identifier, nothing is left to fetch, and
/// so no request is made.
pub proof fn lemma_bulk_all_cached_fetches_nothing<T>(
    ids: Seq<Seq<char>>,
    n: nat,
    decoded: Seq<Option<T>>,
)
    requires
        forall|i: int| 0 <= i < n ==> is_hit(decoded, i),
    ensures
        missing_ids(ids, n, decoded).len() == 0,
    decreases n,
{
    if n > 0 {
        lemma_bulk_all_cached_fetches_nothing(ids, (n - 1) as nat, decoded);
    }
}

/// What is fetched is what the cache did not answer, and nothing else: every
/// identifier without a hit is asked for, and every identifier that is asked
/// for stands at a position without a hit.
pub proof fn lemma_bulk_fetches_exactly_the_misses<T>(
    ids: Seq<Seq<char>>,
    n: nat,
    decoded: Seq<Option<T>>,
)
    requires
        n <= ids.len(),
    ensures
        forall|i: int|
            0 <= i < n && !is_hit(decoded, i) ==> missing_ids(ids, n, decoded).contains(
                #[trigger] ids[i],
            ),
        forall|k: int|
            0 <= k < missing_ids(ids, n, decoded).len() ==> exists|i: int|
                0 <= i < n && !is_hit(decoded, i) && ids[i] == #[trigger] missing_ids(
                    ids,
                    n,
                    decoded,
                )[k],
    decreases n,
{
    if n > 0 {
        let m = (n - 1) as nat;
        lemma_bulk_fetches_exactly_the_misses(ids, m, decoded);
        let before = missing_ids(ids, m, decoded);
        let now = missing_ids(ids, n, decoded);
        assert forall|i: int| 0 <= i < n && !is_hit(decoded, i) implies now.contains(
            #[trigger] ids[i],
        ) by {
            if i < m {
                let k = choose|k: int| 0 <= k < before.len() && before[k] == ids[i];
                assert(now[k] == ids[i]);
            } else {
                assert(now[now.len() - 1] == ids[i]);
            }
        }
        assert forall|k: int| 0 <= k < now.len() implies exists|i: int|
            0 <= i < n && !is_hit(decoded, i) && ids[i] == #[trigger] now[k] by {
            if k < before.len() {
                let i = choose|i: int| 0 <= i < m && !is_hit(decoded, i) && ids[i] == before[k];
                assert(ids[i] == now[k]);
            }
        }
    }
}

/// Of two identifiers of which the cache answers the first and not the
/// second, the second alone is fetched and the first alone comes from the
/// cache.
pub proof fn lemma_bulk_of_two_fetches_the_uncached<T>(
    a: Seq<char>,
    b: Seq<char>,
    cached_a: T,
)
    ensures
        missing_ids(seq![a, b], 2, seq![Some(cached_a), None]) == seq![b],
        cached_items(2, seq![Some(cached_a), None]) == seq![cached_a],
{
    reveal_with_fuel(missing_ids, 3);
    reveal_with_fuel(cached_items, 3);
}

/// After the fetched objects are stored, each of them is in the cache under
/// its own key until one time-to-live has passed, unless a later object of
/// the same batch took the same key.
pub proof fn lemma_bulk_fetched_items_are_cached(
    cache: Map<Seq<char>, (serde_json::Value, nat)>,
    ttl: nat,
    collection: Collection,
    market: Option<Seq<char>>,
    ids: Seq<Seq<char>>,
    values: Seq<serde_json::Value>,
    n: nat,
    now: nat,
    i: int,
    later: nat,
)
    requires
        0 <= i < n,
        later < now + ttl,
        forall|j: int|
            i < j < n ==> item_key(collection, #[trigger] ids[j], market) != item_key(
                collection,
                ids[i],
                market,
            ),
    ensures
        visible(
            stored_items(cache, ttl, collection, market, ids, values, n, now),
            item_key(collection, ids[i], market),
            later,
        ) == Some(values[i]),
    decreases n,
{
    if i < n - 1 {
        lemma_bulk_fetched_items_are_cached(
            cache,
            ttl,
            collection,
            market,
            ids,
            values,
            (n - 1) as nat,
            now,
            i,
            later,
        );
    }
}

/// Storing the fetched objects touches no key but theirs.
pub proof fn lemma_bulk_store_leaves_other_keys(
    cache: Map<Seq<char>, (serde_json::Value, nat)>,
    ttl: nat,
    collection: Collection,
    market: Option<Seq<char>>,
    ids: Seq<Seq<char>>,
    values: Seq<serde_json::Value>,
    n: nat,
    now: nat,
    key: Seq<char>,
    later: nat,
)
    requires
        forall|j: int| 0 <= j < n ==> item_key(collection, #[trigger] ids[j], market) != key,
    ensures
        visible(stored_items(cache, ttl, collection, market, ids, values, n, now), key, later)
            == visible(cache, key, later),
    decreases n,
{
    if n > 0 {
        lemma_bulk_store_leaves_other_keys(
            cache,
            ttl,
            collection,
            market,
            ids,
            values,
            (n - 1) as nat,
            now,
            key,
            later,
        );
    }
}

} // verus!
