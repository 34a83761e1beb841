//! Where the connections of the endpoints go.
use vstd::prelude::*;
use vstd::hash_map::StringHashMap;
use crate::tunnel::raw_session::ChannelId;

verus! {

/// The channels of the endpoints, keyed by endpoint ID.
pub struct Routes {
    senders: StringHashMap<ChannelId>,
    ids: Vec<String>,
}

impl View for Routes {
    type V = Map<Seq<char>, ChannelId>;

    closed spec fn view(&self) -> Map<Seq<char>, ChannelId> {
        self.senders@
    }
}

/// The routes without those that lead to the channel.
pub open spec fn without_channel(routes: Map<Seq<char>, ChannelId>, channel: ChannelId) -> Map<
    Seq<char>,
    ChannelId,
> {
    routes.restrict(routes.dom().filter(|id: Seq<char>| routes[id] != channel))
}

/// Whether `id` is among the first `n` of `ids`.
spec fn listed(ids: Seq<String>, n: int, id: Seq<char>) -> bool {
    exists|j: int| 0 <= j < n && (#[trigger] ids[j])@ == id
}

/// The channel to which an endpoint ID leads.
fn route(senders: &StringHashMap<ChannelId>, id: &str) -> (r: Option<ChannelId>)
    ensures
        match r {
            Some(c) => senders@.contains_key(id@) && c == senders@[id@],
            None => !senders@.contains_key(id@),
        },
{
    match senders.get(id) {
        Some(c) => Some(*c),
        None => None,
    }
}

impl Routes {
    /// Every ID with a route is listed.
    #[verifier::type_invariant]
    spec fn wf(self) -> bool {
        forall|id: Seq<char>| #[trigger]
            self.senders@.contains_key(id) ==> listed(self.ids@, self.ids@.len() as int, id)
    }

    /// No routes.
    pub fn new() -> (r: Routes)
        ensures
            r@ == Map::<Seq<char>, ChannelId>::empty(),
    {
        Routes { senders: StringHashMap::new(), ids: Vec::new() }
    }

    /// Let an endpoint ID lead to a channel, wherever it led before.
    pub fn insert(&mut self, id: String, channel: ChannelId)
        ensures
            final(self)@ == old(self)@.insert(id@, channel),
    {
        proof {
            use_type_invariant(&*self);
        }
        let mut senders: StringHashMap<ChannelId> = StringHashMap::new();
        let mut ids: Vec<String> = Vec::new();
        std::mem::swap(&mut senders, &mut self.senders);
        std::mem::swap(&mut ids, &mut self.ids);
        let ghost before = ids@;
        let ghost routes = senders@;
        if !senders.contains_key(id.as_str()) {
            ids.push(id.clone());
        }
        senders.insert(id, channel);
        proof {
            assert forall|k: Seq<char>| #[trigger] senders@.contains_key(k) implies listed(
                ids@,
                ids@.len() as int,
                k,
            ) by {
                if routes.contains_key(k) {
                    let j = choose|j: int| 0 <= j < before.len() && (#[trigger] before[j])@ == k;
                    assert(ids@[j]@ == k);
                } else {
                    assert(ids@[ids@.len() - 1]@ == k);
                }
            }
        }
        self.ids = ids;
        self.senders = senders;
    }

    /// The channel to which an endpoint ID leads.
    pub fn get(&self, id: &str) -> (r: Option<ChannelId>)
        ensures
            match r {
                Some(c) => self@.contains_key(id@) && c == self@[id@],
                None => !self@.contains_key(id@),
            },
    {
        route(&self.senders, id)
    }

    /// Take off all routes that lead to a channel.
    pub fn close(&mut self, channel: ChannelId)
        ensures
            final(self)@ == without_channel(old(self)@, channel),
    {
        proof {
            use_type_invariant(&*self);
        }
        let mut senders: StringHashMap<ChannelId> = StringHashMap::new();
        let mut ids: Vec<String> = Vec::new();
        std::mem::swap(&mut senders, &mut self.senders);
        std::mem::swap(&mut ids, &mut self.ids);
        let ghost routes = senders@;
        let mut kept: Vec<String> = Vec::new();
        let mut i: usize = 0;
        while i < ids.len()
            invariant
                0 <= i <= ids@.len(),
                forall|k: Seq<char>| #[trigger]
                    senders@.contains_key(k) <==> routes.contains_key(k) && !(routes[k] == channel
                        && listed(ids@, i as int, k)),
                forall|k: Seq<char>| #[trigger]
                    senders@.contains_key(k) ==> senders@[k] == routes[k],
                forall|k: Seq<char>| #[trigger]
                    senders@.contains_key(k) && listed(ids@, i as int, k) ==> listed(
                        kept@,
                        kept@.len() as int,
                        k,
                    ),
            decreases ids@.len() - i,
        {
            let id: &str = ids[i].as_str();
            let ghost before = senders@;
            let ghost kept_before = kept@;
            match route(&senders, id) {
                Some(c) => {
                    if c == channel {
                        senders.remove(id);
                    } else {
                        kept.push(id.to_owned());
                    }
                },
                None => {},
            }
            proof {
                assert forall|k: Seq<char>| listed(ids@, i + 1, k) == (listed(ids@, i as int, k) || k
                    == ids@[i as int]@) by {
                    if listed(ids@, i + 1, k) && k != ids@[i as int]@ {
                        let j = choose|j: int| 0 <= j < i + 1 && (#[trigger] ids@[j])@ == k;
                        assert(0 <= j < i && ids@[j]@ == k);
                    }
                    if listed(ids@, i as int, k) {
                        let j = choose|j: int| 0 <= j < i && (#[trigger] ids@[j])@ == k;
                        assert(0 <= j < i + 1 && ids@[j]@ == k);
                    }
                    if k == ids@[i as int]@ {
                        assert(0 <= i < i + 1 && ids@[i as int]@ == k);
                    }
                }
                assert forall|k: Seq<char>| #[trigger] senders@.contains_key(k) <==> routes.contains_key(k)
                    && !(routes[k] == channel && listed(ids@, i + 1, k)) by {
                    assert(before.contains_key(k) <==> routes.contains_key(k) && !(routes[k]
                        == channel && listed(ids@, i as int, k)));
                }
                assert forall|k: Seq<char>| #[trigger] senders@.contains_key(k) implies senders@[k]
                    == routes[k] by {
                    assert(before.contains_key(k));
                }
                assert forall|k: Seq<char>| #[trigger]
                    senders@.contains_key(k) && listed(ids@, i + 1, k) implies listed(
                    kept@,
                    kept@.len() as int,
                    k,
                ) by {
                    assert(before.contains_key(k));
                    if listed(ids@, i as int, k) {
                        let j = choose|j: int|
                            0 <= j < kept_before.len() && (#[trigger] kept_before[j])@ == k;
                        assert(kept@[j]@ == k);
                    } else {
                        assert(kept@[kept@.len() - 1]@ == k);
                    }
                }
            }
            i = i + 1;
        }
        assert(senders@ =~= without_channel(routes, channel));
        self.ids = kept;
        self.senders = senders;
    }
}

/// Closing a channel takes away exactly the routes that lead to it; every other ID leads where it
/// led.
pub proof fn closing_a_channel_keeps_the_other_routes(
    routes: Map<Seq<char>, ChannelId>,
    channel: ChannelId,
    id: Seq<char>,
)
    ensures
        without_channel(routes, channel).contains_key(id) == (routes.contains_key(id) && routes[id]
            != channel),
        routes.contains_key(id) && routes[id] != channel ==> without_channel(routes, channel)[id]
            == routes[id],
{
}

/// Routes lead where they were last made to lead, until their channel is closed; no other route is
/// changed by either.
pub proof fn routes_lead_where_they_were_made_to(
    made: &mut Routes,
    id: String,
    channel: ChannelId,
    other: Seq<char>,
    closed: &mut Routes,
    at: &Routes,
    asked: &str,
    r: Option<ChannelId>,
)
    requires
        call_ensures(Routes::insert, (made, id, channel), ()),
        call_ensures(Routes::close, (closed, channel), ()),
        call_ensures(Routes::get, (at, asked), r),
    ensures
        final(made)@.contains_key(id@) && final(made)@[id@] == channel,
        other != id@ ==> final(made)@.contains_key(other) == old(made)@.contains_key(other)
            && final(made)@[other] == old(made)@[other],
        final(closed)@.contains_key(other) <==> old(closed)@.contains_key(other) && old(
            closed,
        )@[other] != channel,
        final(closed)@.contains_key(other) ==> final(closed)@[other] == old(closed)@[other],
        r is Some <==> at@.contains_key(asked@),
        r matches Some(c) ==> c == at@[asked@],
{
    closing_a_channel_keeps_the_other_routes(closed@, channel, other);
}

} // verus!
