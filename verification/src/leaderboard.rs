//! The leaderboard: for each map, by its name, the times of its completed
//! runs. Times count millionths of a second.

use vstd::prelude::*;
use vstd::string::StringExecFns;

verus! {

/// What the game sends when a run is completed.
#[derive(Clone, Debug, PartialEq, Eq)]
pub enum LeaderboardEvent {
    /// The name of the map and the time of the run.
    SaveLeaderboardData(String, u64),
}

/// The times of the runs on one map, oldest first.
#[derive(Clone, Debug, PartialEq, Eq)]
pub struct MapScores {
    pub map: String,
    pub times: Vec<u64>,
}

/// The times of all maps; no map stands in it twice.
#[derive(Clone, Debug, PartialEq, Eq)]
pub struct MapHighscores {
    pub maps: Vec<MapScores>,
}

/// Whether entry `i` of `maps` is the first for the map `name`.
pub open spec fn first_entry(maps: Seq<MapScores>, name: Seq<char>, i: int) -> bool {
    &&& 0 <= i < maps.len()
    &&& maps[i].map@ == name
    &&& forall|j: int| 0 <= j < i ==> (#[trigger] maps[j]).map@ != name
}

/// Whether `maps` has no entry for the map `name`.
pub open spec fn no_entry(maps: Seq<MapScores>, name: Seq<char>) -> bool {
    forall|j: int| 0 <= j < maps.len() ==> (#[trigger] maps[j]).map@ != name
}

/// Whether no time of `times` stands before a smaller one.
pub open spec fn ascending(times: Seq<u64>) -> bool {
    forall|i: int, j: int| 0 <= i <= j < times.len() ==> times[i] <= times[j]
}

/// A sequence with one more element holds, as a multiset, that element more.
proof fn lemma_insert_to_multiset(s: Seq<u64>, i: int, v: u64)
    requires
        0 <= i <= s.len(),
    ensures
        s.insert(i, v).to_multiset() =~= s.to_multiset().insert(v),
{
    broadcast use vstd::seq_lib::group_to_multiset_ensures;

    let longer = s.insert(i, v);
    assert(longer[i] == v);
    assert(longer.remove(i) =~= s);
    assert(longer.contains(v));
    assert(longer.to_multiset().count(v) > 0);
    assert(longer.remove(i).to_multiset() =~= longer.to_multiset().remove(v));
}

/// The times to show for one map: the same times, the best first.
pub fn sorted_times(times: &Vec<u64>) -> (sorted: Vec<u64>)
    ensures
        ascending(sorted@),
        sorted@.to_multiset() == times@.to_multiset(),
{
    let mut sorted: Vec<u64> = Vec::new();
    let mut i: usize = 0;
    proof {
        assert(times@.take(0) =~= sorted@);
    }
    while i < times.len()
        invariant
            i <= times.len(),
            ascending(sorted@),
            sorted@.to_multiset() == times@.take(i as int).to_multiset(),
        decreases times.len() - i,
    {
        let time = times[i];
        let mut at: usize = 0;
        while at < sorted.len() && sorted[at] <= time
            invariant
                at <= sorted.len(),
                forall|j: int| 0 <= j < at ==> sorted@[j] <= time,
            decreases sorted.len() - at,
        {
            at += 1;
        }
        proof {
            broadcast use vstd::seq_lib::group_to_multiset_ensures;

            lemma_insert_to_multiset(sorted@, at as int, time);
            assert(times@.take(i + 1) =~= times@.take(i as int).push(time));
            let longer = sorted@.insert(at as int, time);
            assert forall|a: int, b: int| 0 <= a <= b < longer.len() implies longer[a] <= longer[b] by {
                if a < at && b > at {
                    assert(longer[a] == sorted@[a] && longer[b] == sorted@[b - 1]);
                } else if a < at && b < at {
                    assert(longer[a] == sorted@[a] && longer[b] == sorted@[b]);
                } else if a > at {
                    assert(longer[a] == sorted@[a - 1] && longer[b] == sorted@[b - 1]);
                } else if a == at && b > at {
                    assert(longer[b] == sorted@[b - 1]);
                    assert(sorted@[at as int] <= sorted@[b - 1]);
                }
            }
        }
        sorted.insert(at, time);
        i += 1;
    }
    proof {
        assert(times@.take(times.len() as int) =~= times@);
    }
    sorted
}

impl MapHighscores {
    /// Whether no map stands in the leaderboard twice.
    pub open spec fn wf(self) -> bool {
        forall|i: int, j: int|
            0 <= i < j < self.maps.len() ==> (#[trigger] self.maps[i]).map@ != (#[trigger] self.maps[j]).map@
    }

    /// A leaderboard without times.
    pub fn new() -> (h: MapHighscores)
        ensures
            h.maps@ == Seq::<MapScores>::empty(),
            h.wf(),
    {
        MapHighscores { maps: Vec::new() }
    }

    /// Where the entry of the map `name` stands, if it has one.
    pub fn find(&self, name: &str) -> (at: Option<usize>)
        ensures
            at matches Some(i) ==> first_entry(self.maps@, name@, i as int),
            at is None ==> no_entry(self.maps@, name@),
    {
        let wanted = String::from_str(name);
        let mut i: usize = 0;
        while i < self.maps.len()
            invariant
                i <= self.maps.len(),
                wanted@ == name@,
                forall|j: int| 0 <= j < i ==> (#[trigger] self.maps@[j]).map@ != name@,
            decreases self.maps.len() - i,
        {
            if self.maps[i].map == wanted {
                return Some(i);
            }
            i += 1;
        }
        None
    }

    /// Adds the time of a completed run: at the end of the times of its map,
    /// or, for a map without times, as the only time of a new entry at the
    /// end of the leaderboard. Every other entry stays as it is.
    pub fn add_highscore(&mut self, event: &LeaderboardEvent)
        ensures
            match *event {
                LeaderboardEvent::SaveLeaderboardData(name, time) => {
                    &&& no_entry(old(self).maps@, name@) ==> {
                        &&& final(self).maps@.len() == old(self).maps@.len() + 1
                        &&& final(self).maps@.last().map@ == name@
                        &&& final(self).maps@.last().times@ == seq![time]
                        &&& final(self).maps@.drop_last() == old(self).maps@
                    }
                    &&& forall|i: int|
                        first_entry(old(self).maps@, name@, i) ==> {
                            &&& final(self).maps@.len() == old(self).maps@.len()
                            &&& final(self).maps@[i].map@ == name@
                            &&& final(self).maps@[i].times@ == old(self).maps@[i].times@.push(time)
                            &&& forall|j: int|
                                0 <= j < old(self).maps@.len() && j != i ==> #[trigger] final(self).maps@[j]
                                    == old(self).maps@[j]
                        }
                },
            },
            old(self).wf() ==> final(self).wf(),
    {
        match event {
            LeaderboardEvent::SaveLeaderboardData(name, time) => {
                match self.find(name.as_str()) {
                    Some(i) => {
                        let mut times = self.maps[i].times.clone();
                        times.push(*time);
                        self.maps.set(i, MapScores { map: name.clone(), times });
                        proof {
                            assert forall|k: int| first_entry(old(self).maps@, name@, k) implies k == i by {
                                if k > i {
                                    assert(old(self).maps@[i as int].map@ != name@);
                                }
                            }
                        }
                    },
                    None => {
                        let mut times: Vec<u64> = Vec::new();
                        times.push(*time);
                        self.maps.push(MapScores { map: name.clone(), times });
                        proof {
                            assert(self.maps@.drop_last() =~= old(self).maps@);
                            assert(times@ =~= seq![*time]);
                        }
                    },
                }
            },
        }
    }
}

} // verus!
