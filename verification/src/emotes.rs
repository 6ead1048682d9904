use crate::text::equals;
use vstd::prelude::*;

verus! {

/// One emote name and the address of its image.
#[derive(Clone, Debug)]
pub struct EmoteUrl {
    pub name: String,
    pub url: String,
}

/// The emotes of a Twitch channel: each emote name with the address of its
/// image.
#[derive(Clone, Debug)]
pub struct TwitchEmoteDatabase {
    pub emote_url_map: Vec<EmoteUrl>,
}

/// No two entries share a name.
pub open spec fn distinct_names(s: Seq<EmoteUrl>) -> bool {
    forall|i: int, j: int|
        0 <= i < s.len() && 0 <= j < s.len() && i != j ==> s[i].name@ != s[j].name@
}

/// The map from emote name to address that the entries describe.
pub open spec fn emote_map(s: Seq<EmoteUrl>) -> Map<Seq<char>, Seq<char>> {
    Map::new(
        |k: Seq<char>| exists|i: int| 0 <= i < s.len() && s[i].name@ == k,
        |k: Seq<char>| s[choose|i: int| 0 <= i < s.len() && s[i].name@ == k].url@,
    )
}

proof fn lemma_emote_map_lookup(s: Seq<EmoteUrl>, i: int)
    requires
        distinct_names(s),
        0 <= i < s.len(),
    ensures
        emote_map(s).dom().contains(s[i].name@),
        emote_map(s)[s[i].name@] == s[i].url@,
{
    let k = s[i].name@;
    assert(exists|j: int| 0 <= j < s.len() && s[j].name@ == k);
    let j = choose|j: int| 0 <= j < s.len() && s[j].name@ == k;
    assert(j == i);
}

impl TwitchEmoteDatabase {
    pub open spec fn wf(&self) -> bool {
        distinct_names(self.emote_url_map@)
    }

    pub open spec fn view_map(&self) -> Map<Seq<char>, Seq<char>> {
        emote_map(self.emote_url_map@)
    }

    /// An empty database.
    pub fn new() -> (r: Self)
        ensures
            r.wf(),
            r.emote_url_map@.len() == 0,
            r.view_map() == Map::<Seq<char>, Seq<char>>::empty(),
    {
        let r = TwitchEmoteDatabase { emote_url_map: Vec::new() };
        assert(r.view_map() =~= Map::<Seq<char>, Seq<char>>::empty());
        r
    }

    /// Index of the entry named `name`, if any.
    fn position(&self, name: &str) -> (r: Option<usize>)
        ensures
            match r {
                Some(i) => i < self.emote_url_map@.len() && self.emote_url_map@[i as int].name@
                    == name@,
                None => forall|j: int|
                    0 <= j < self.emote_url_map@.len() ==> self.emote_url_map@[j].name@ != name@,
            },
    {
        let mut i: usize = 0;
        while i < self.emote_url_map.len()
            invariant
                i <= self.emote_url_map@.len(),
                forall|j: int| 0 <= j < i ==> self.emote_url_map@[j].name@ != name@,
            decreases self.emote_url_map@.len() - i,
        {
            if equals(self.emote_url_map[i].name.as_str(), name) {
                return Some(i);
            }
            i += 1;
        }
        None
    }

    /// Records `emote_url` as the address of the emote `emote_key`,
    /// replacing an earlier address of the same emote.
    pub fn add_emote(&mut self, emote_key: &str, emote_url: &str)
        requires
            old(self).wf(),
        ensures
            final(self).wf(),
            final(self).view_map() == old(self).view_map().insert(emote_key@, emote_url@),
    {
        let entry = EmoteUrl { name: String::from_str(emote_key), url: String::from_str(emote_url) };
        let ghost old_s = self.emote_url_map@;
        match self.position(emote_key) {
            Some(i) => {
                self.emote_url_map.set(i, entry);
                let ghost s = self.emote_url_map@;
                assert(s == old_s.update(i as int, entry));
                assert(distinct_names(s)) by {
                    assert forall|a: int, b: int|
                        0 <= a < s.len() && 0 <= b < s.len() && a != b implies s[a].name@
                        != s[b].name@ by {
                        if a != i && b != i {
                            assert(s[a] == old_s[a] && s[b] == old_s[b]);
                        }
                    }
                }
                assert forall|k: Seq<char>| #[trigger]
                    emote_map(s).dom().contains(k) == old(self).view_map().insert(
                        emote_key@,
                        emote_url@,
                    ).dom().contains(k) by {
                    if exists|j: int| 0 <= j < old_s.len() && old_s[j].name@ == k {
                        let j = choose|j: int| 0 <= j < old_s.len() && old_s[j].name@ == k;
                        if j != i {
                            assert(s[j] == old_s[j]);
                        }
                    }
                    if exists|j: int| 0 <= j < s.len() && s[j].name@ == k {
                        let j = choose|j: int| 0 <= j < s.len() && s[j].name@ == k;
                        if j != i {
                            assert(s[j] == old_s[j]);
                        }
                    }
                    if k == emote_key@ {
                        assert(s[i as int].name@ == k);
                    }
                }
                assert forall|k: Seq<char>| #[trigger] emote_map(s).dom().contains(k) implies
                    emote_map(s)[k] == old(self).view_map().insert(emote_key@, emote_url@)[k] by {
                    let j = choose|j: int| 0 <= j < s.len() && s[j].name@ == k;
                    lemma_emote_map_lookup(s, j);
                    if j != i {
                        assert(s[j] == old_s[j]);
                        lemma_emote_map_lookup(old_s, j);
                    }
                }
                assert(emote_map(s) =~= old(self).view_map().insert(emote_key@, emote_url@));
            },
            None => {
                self.emote_url_map.push(entry);
                let ghost s = self.emote_url_map@;
                assert(s == old_s.push(entry));
                assert(distinct_names(s)) by {
                    assert forall|a: int, b: int|
                        0 <= a < s.len() && 0 <= b < s.len() && a != b implies s[a].name@
                        != s[b].name@ by {
                        if a < old_s.len() && b < old_s.len() {
                            assert(s[a] == old_s[a] && s[b] == old_s[b]);
                        } else if a < old_s.len() {
                            assert(s[a] == old_s[a]);
                        } else {
                            assert(s[b] == old_s[b]);
                        }
                    }
                }
                let ghost n = old_s.len() as int;
                assert forall|k: Seq<char>| #[trigger]
                    emote_map(s).dom().contains(k) == old(self).view_map().insert(
                        emote_key@,
                        emote_url@,
                    ).dom().contains(k) by {
                    if exists|j: int| 0 <= j < old_s.len() && old_s[j].name@ == k {
                        let j = choose|j: int| 0 <= j < old_s.len() && old_s[j].name@ == k;
                        assert(s[j] == old_s[j]);
                    }
                    if exists|j: int| 0 <= j < s.len() && s[j].name@ == k {
                        let j = choose|j: int| 0 <= j < s.len() && s[j].name@ == k;
                        if j != n {
                            assert(s[j] == old_s[j]);
                        }
                    }
                    if k == emote_key@ {
                        assert(s[n].name@ == k);
                    }
                }
                assert forall|k: Seq<char>| #[trigger] emote_map(s).dom().contains(k) implies
                    emote_map(s)[k] == old(self).view_map().insert(emote_key@, emote_url@)[k] by {
                    let j = choose|j: int| 0 <= j < s.len() && s[j].name@ == k;
                    lemma_emote_map_lookup(s, j);
                    if j != n {
                        assert(s[j] == old_s[j]);
                        lemma_emote_map_lookup(old_s, j);
                    }
                }
                assert(emote_map(s) =~= old(self).view_map().insert(emote_key@, emote_url@));
            },
        }
    }

    /// The address recorded for the emote `name`, if any.
    pub fn get_emote_url(&self, name: &str) -> (r: Option<String>)
        requires
            self.wf(),
        ensures
            match r {
                Some(u) => self.view_map().dom().contains(name@) && u@ == self.view_map()[name@],
                None => !self.view_map().dom().contains(name@),
            },
    {
        match self.position(name) {
            Some(i) => {
                proof {
                    lemma_emote_map_lookup(self.emote_url_map@, i as int);
                }
                Some(self.emote_url_map[i].url.clone())
            },
            None => None,
        }
    }

    /// Number of emotes recorded.
    pub fn len(&self) -> (r: usize)
        requires
            self.wf(),
        ensures
            r == self.view_map().dom().len(),
    {
        proof {
            self.lemma_dom_len();
        }
        self.emote_url_map.len()
    }

    proof fn lemma_dom_len(&self)
        requires
            self.wf(),
        ensures
            self.view_map().dom().finite(),
            self.view_map().dom().len() == self.emote_url_map@.len(),
    {
        let s = self.emote_url_map@;
        let names = s.map_values(|e: EmoteUrl| e.name@);
        assert(names.no_duplicates()) by {
            assert forall|a: int, b: int|
                0 <= a < names.len() && 0 <= b < names.len() && a != b implies names[a]
                != names[b] by {}
        }
        names.unique_seq_to_set();
        assert(self.view_map().dom() =~= names.to_set()) by {
            assert forall|k: Seq<char>| #[trigger] self.view_map().dom().contains(k) implies names.to_set().contains(k) by {
                let j = choose|j: int| 0 <= j < s.len() && s[j].name@ == k;
                assert(names[j] == k);
            }
            assert forall|k: Seq<char>| #[trigger] names.to_set().contains(k) implies self.view_map().dom().contains(k) by {
                let j = choose|j: int| 0 <= j < names.len() && names[j] == k;
                assert(s[j].name@ == k);
            }
        }
    }
}

/// The emote database attached to a chat, if one could be built.
#[derive(Clone, Debug)]
pub enum EmoteDatabaseEnum {
    TwitchEmoteDatabase(TwitchEmoteDatabase),
    NoDatabase,
}

} // verus!
