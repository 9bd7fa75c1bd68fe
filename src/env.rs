//! Environment variables handed to an invoked command.

use vstd::prelude::*;

verus! {

/// How many distinct variable names there are.
pub const KEY_COUNT: usize = 18;

/// The name of an environment variable that carries event data.
#[derive(Clone, Copy, Debug, PartialEq, Eq, Structural)]
pub enum EnvKey {
    PlayerEvent,
    PlayRequestId,
    TrackId,
    PositionMs,
    Volume,
    TrackName,
    TrackDuration,
    TrackCover,
    ConnectionId,
    Username,
    ClientId,
    ClientName,
    ClientBrand,
    ClientModel,
    Shuffle,
    Repeat,
    Autoplay,
    FilterExplicit,
}

/// The variable name that a key stands for.
pub open spec fn key_name(k: EnvKey) -> Seq<char> {
    match k {
        EnvKey::PlayerEvent => "PLAYER_EVENT"@,
        EnvKey::PlayRequestId => "PLAY_REQUEST_ID"@,
        EnvKey::TrackId => "TRACK_ID"@,
        EnvKey::PositionMs => "POSITION_MS"@,
        EnvKey::Volume => "VOLUME"@,
        EnvKey::TrackName => "TRACK_NAME"@,
        EnvKey::TrackDuration => "TRACK_DURATION"@,
        EnvKey::TrackCover => "TRACK_COVER"@,
        EnvKey::ConnectionId => "CONNECTION_ID"@,
        EnvKey::Username => "USERNAME"@,
        EnvKey::ClientId => "CLIENT_ID"@,
        EnvKey::ClientName => "CLIENT_NAME"@,
        EnvKey::ClientBrand => "CLIENT_BRAND"@,
        EnvKey::ClientModel => "CLIENT_MODEL"@,
        EnvKey::Shuffle => "SHUFFLE"@,
        EnvKey::Repeat => "REPEAT"@,
        EnvKey::Autoplay => "AUTOPLAY"@,
        EnvKey::FilterExplicit => "FILTEREXPLICIT"@,
    }
}

/// The slot of a key in an environment map.
pub open spec fn key_index(k: EnvKey) -> int {
    match k {
        EnvKey::PlayerEvent => 0,
        EnvKey::PlayRequestId => 1,
        EnvKey::TrackId => 2,
        EnvKey::PositionMs => 3,
        EnvKey::Volume => 4,
        EnvKey::TrackName => 5,
        EnvKey::TrackDuration => 6,
        EnvKey::TrackCover => 7,
        EnvKey::ConnectionId => 8,
        EnvKey::Username => 9,
        EnvKey::ClientId => 10,
        EnvKey::ClientName => 11,
        EnvKey::ClientBrand => 12,
        EnvKey::ClientModel => 13,
        EnvKey::Shuffle => 14,
        EnvKey::Repeat => 15,
        EnvKey::Autoplay => 16,
        EnvKey::FilterExplicit => 17,
    }
}

/// The key held in slot `i`.
pub open spec fn key_at(i: int) -> EnvKey {
    if i == 0 {
        EnvKey::PlayerEvent
    } else if i == 1 {
        EnvKey::PlayRequestId
    } else if i == 2 {
        EnvKey::TrackId
    } else if i == 3 {
        EnvKey::PositionMs
    } else if i == 4 {
        EnvKey::Volume
    } else if i == 5 {
        EnvKey::TrackName
    } else if i == 6 {
        EnvKey::TrackDuration
    } else if i == 7 {
        EnvKey::TrackCover
    } else if i == 8 {
        EnvKey::ConnectionId
    } else if i == 9 {
        EnvKey::Username
    } else if i == 10 {
        EnvKey::ClientId
    } else if i == 11 {
        EnvKey::ClientName
    } else if i == 12 {
        EnvKey::ClientBrand
    } else if i == 13 {
        EnvKey::ClientModel
    } else if i == 14 {
        EnvKey::Shuffle
    } else if i == 15 {
        EnvKey::Repeat
    } else if i == 16 {
        EnvKey::Autoplay
    } else {
        EnvKey::FilterExplicit
    }
}

/// Slots and keys correspond one to one.
pub proof fn lemma_key_index(k: EnvKey)
    ensures
        0 <= key_index(k) < KEY_COUNT,
        key_at(key_index(k)) == k,
{
}

impl EnvKey {
    /// The variable name, as the invoked command sees it.
    pub fn name(&self) -> (r: &'static str)
        ensures
            r@ == key_name(*self),
    {
        match self {
            EnvKey::PlayerEvent => "PLAYER_EVENT",
            EnvKey::PlayRequestId => "PLAY_REQUEST_ID",
            EnvKey::TrackId => "TRACK_ID",
            EnvKey::PositionMs => "POSITION_MS",
            EnvKey::Volume => "VOLUME",
            EnvKey::TrackName => "TRACK_NAME",
            EnvKey::TrackDuration => "TRACK_DURATION",
            EnvKey::TrackCover => "TRACK_COVER",
            EnvKey::ConnectionId => "CONNECTION_ID",
            EnvKey::Username => "USERNAME",
            EnvKey::ClientId => "CLIENT_ID",
            EnvKey::ClientName => "CLIENT_NAME",
            EnvKey::ClientBrand => "CLIENT_BRAND",
            EnvKey::ClientModel => "CLIENT_MODEL",
            EnvKey::Shuffle => "SHUFFLE",
            EnvKey::Repeat => "REPEAT",
            EnvKey::Autoplay => "AUTOPLAY",
            EnvKey::FilterExplicit => "FILTEREXPLICIT",
        }
    }

    /// The slot of this key.
    pub fn index(&self) -> (r: usize)
        ensures
            r as int == key_index(*self),
            r < KEY_COUNT,
    {
        match self {
            EnvKey::PlayerEvent => 0,
            EnvKey::PlayRequestId => 1,
            EnvKey::TrackId => 2,
            EnvKey::PositionMs => 3,
            EnvKey::Volume => 4,
            EnvKey::TrackName => 5,
            EnvKey::TrackDuration => 6,
            EnvKey::TrackCover => 7,
            EnvKey::ConnectionId => 8,
            EnvKey::Username => 9,
            EnvKey::ClientId => 10,
            EnvKey::ClientName => 11,
            EnvKey::ClientBrand => 12,
            EnvKey::ClientModel => 13,
            EnvKey::Shuffle => 14,
            EnvKey::Repeat => 15,
            EnvKey::Autoplay => 16,
            EnvKey::FilterExplicit => 17,
        }
    }

    /// The key held in slot `i`.
    pub fn at(i: usize) -> (r: EnvKey)
        requires
            i < KEY_COUNT,
        ensures
            r == key_at(i as int),
            key_index(r) == i,
    {
        if i == 0 {
            EnvKey::PlayerEvent
        } else if i == 1 {
            EnvKey::PlayRequestId
        } else if i == 2 {
            EnvKey::TrackId
        } else if i == 3 {
            EnvKey::PositionMs
        } else if i == 4 {
            EnvKey::Volume
        } else if i == 5 {
            EnvKey::TrackName
        } else if i == 6 {
            EnvKey::TrackDuration
        } else if i == 7 {
            EnvKey::TrackCover
        } else if i == 8 {
            EnvKey::ConnectionId
        } else if i == 9 {
            EnvKey::Username
        } else if i == 10 {
            EnvKey::ClientId
        } else if i == 11 {
            EnvKey::ClientName
        } else if i == 12 {
            EnvKey::ClientBrand
        } else if i == 13 {
            EnvKey::ClientModel
        } else if i == 14 {
            EnvKey::Shuffle
        } else if i == 15 {
            EnvKey::Repeat
        } else if i == 16 {
            EnvKey::Autoplay
        } else {
            EnvKey::FilterExplicit
        }
    }
}

/// A mapping from variable names to values, each name present at most once.
pub struct EnvMap {
    slots: Vec<Option<String>>,
}

impl View for EnvMap {
    type V = Map<EnvKey, Seq<char>>;

    closed spec fn view(&self) -> Map<EnvKey, Seq<char>> {
        Map::new(
            |k: EnvKey| self.slots@[key_index(k)] is Some,
            |k: EnvKey| self.slots@[key_index(k)]->Some_0@,
        )
    }
}

impl EnvMap {
    /// Every key has its slot.
    pub closed spec fn wf(&self) -> bool {
        self.slots@.len() == KEY_COUNT
    }

    /// A map with no variables.
    pub fn new() -> (r: EnvMap)
        ensures
            r.wf(),
            r@ == Map::<EnvKey, Seq<char>>::empty(),
    {
        let mut slots: Vec<Option<String>> = Vec::new();
        while slots.len() < KEY_COUNT
            invariant
                slots@.len() <= KEY_COUNT,
                forall|i: int| 0 <= i < slots@.len() ==> slots@[i] is None,
            decreases KEY_COUNT - slots@.len(),
        {
            slots.push(None);
        }
        let r = EnvMap { slots };
        assert(r@ =~= Map::<EnvKey, Seq<char>>::empty()) by {
            assert forall|k: EnvKey| !(#[trigger] r@.dom().contains(k)) by {
                lemma_key_index(k);
            }
        }
        r
    }

    /// Sets `key` to `value`, replacing any earlier value.
    pub fn insert(&mut self, key: EnvKey, value: String)
        requires
            old(self).wf(),
        ensures
            final(self).wf(),
            final(self)@ == old(self)@.insert(key, value@),
    {
        let i = key.index();
        let ghost v = value@;
        self.slots.set(i, Some(value));
        proof {
            assert forall|k: EnvKey| key_index(k) == i implies k == key by {
                lemma_key_index(k);
                lemma_key_index(key);
            }
            assert(self@ =~= old(self)@.insert(key, v));
        }
    }

    /// The value of `key`, if it is set.
    pub fn get(&self, key: EnvKey) -> (r: Option<&String>)
        requires
            self.wf(),
        ensures
            r.is_some() == self@.dom().contains(key),
            r.is_some() ==> r.unwrap()@ == self@[key],
    {
        match &self.slots[key.index()] {
            Some(v) => Some(v),
            None => None,
        }
    }

    /// The variables that are set, each once, in the order of their slots.
    pub fn entries(&self) -> (r: Vec<(EnvKey, String)>)
        requires
            self.wf(),
        ensures
            forall|j: int| #![trigger r@[j]] 0 <= j < r@.len() ==> self@.dom().contains(r@[j].0)
                && r@[j].1@ == self@[r@[j].0],
            forall|j: int, l: int| 0 <= j < l < r@.len() ==> key_index(#[trigger] r@[j].0) < key_index(#[trigger] r@[l].0),
            forall|k: EnvKey| #[trigger] self@.dom().contains(k) ==> exists|j: int| 0 <= j < r@.len() && r@[j].0 == k,
    {
        let mut r: Vec<(EnvKey, String)> = Vec::new();
        let mut i: usize = 0;
        while i < KEY_COUNT
            invariant
                self.wf(),
                i <= KEY_COUNT,
                forall|j: int| #![trigger r@[j]] 0 <= j < r@.len() ==> self@.dom().contains(r@[j].0)
                    && r@[j].1@ == self@[r@[j].0] && key_index(r@[j].0) < i,
                forall|j: int, l: int| 0 <= j < l < r@.len() ==> key_index(#[trigger] r@[j].0) < key_index(#[trigger] r@[l].0),
                forall|k: EnvKey| #[trigger] self@.dom().contains(k) && key_index(k) < i ==> exists|j: int| 0 <= j < r@.len() && r@[j].0 == k,
            decreases KEY_COUNT - i,
        {
            let k = EnvKey::at(i);
            let ghost r0 = r@;
            proof {
                lemma_key_index(k);
            }
            match &self.slots[i] {
                Some(v) => {
                    r.push((k, v.clone()));
                    assert(r@ == r0.push((k, *v)));
                    assert(self@.dom().contains(k));
                    assert(self@[k] == v@);
                    assert(r@[r@.len() - 1].0 == k);
                    assert forall|j: int, l: int| 0 <= j < l < r@.len() implies key_index(#[trigger] r@[j].0) < key_index(#[trigger] r@[l].0) by {
                        assert(r@[j] == r0[j]);
                        assert(self@.dom().contains(r0[j].0));
                        if l < r0.len() {
                            assert(r@[l] == r0[l]);
                            assert(key_index(r0[j].0) < key_index(r0[l].0));
                        }
                    }
                },
                None => {},
            }
            proof {
                assert(r0.len() <= r@.len());
                assert forall|j: int| 0 <= j < r0.len() implies r@[j] == r0[j] by {}
                assert forall|j: int| #![trigger r@[j]] 0 <= j < r@.len() implies self@.dom().contains(r@[j].0)
                    && r@[j].1@ == self@[r@[j].0] && key_index(r@[j].0) < i + 1 by {
                    if j < r0.len() {
                        assert(r@[j] == r0[j]);
                        assert(self@.dom().contains(r0[j].0));
                    }
                }
                assert forall|k2: EnvKey| #[trigger] self@.dom().contains(k2) && key_index(k2) < i + 1 implies exists|j: int| 0 <= j < r@.len() && r@[j].0 == k2 by {
                    lemma_key_index(k2);
                    if key_index(k2) == i {
                        assert(r@[r@.len() - 1].0 == k2);
                    } else {
                        let j = choose|j: int| 0 <= j < r0.len() && r0[j].0 == k2;
                        assert(r@[j].0 == k2);
                    }
                }
            }
            i = i + 1;
        }
        proof {
            assert forall|k: EnvKey| #[trigger] self@.dom().contains(k) implies exists|j: int| 0 <= j < r@.len() && r@[j].0 == k by {
                lemma_key_index(k);
            }
        }
        r
    }
}

} // verus!
