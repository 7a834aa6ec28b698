use vstd::prelude::*;
use vstd::string::StringExecFns;

verus! {

/// The texts held by a sequence of strings.
pub open spec fn texts(v: Seq<String>) -> Seq<Seq<char>> {
    v.map_values(|s: String| s@)
}

/// The entries of `s` in order of first occurrence, each once.
pub open spec fn first_occurrences(s: Seq<Seq<char>>) -> Seq<Seq<char>>
    decreases s.len(),
{
    if s.len() == 0 {
        s
    } else {
        let before = first_occurrences(s.drop_last());
        if before.contains(s.last()) {
            before
        } else {
            before.push(s.last())
        }
    }
}

/// Keeping first occurrences changes nothing in a sequence without repeats,
/// and always yields one without repeats.
pub proof fn lemma_first_occurrences_of_unique(s: Seq<Seq<char>>)
    ensures
        first_occurrences(s).no_duplicates(),
        forall|x: Seq<char>| #[trigger] first_occurrences(s).contains(x) <==> s.contains(x),
        s.no_duplicates() ==> first_occurrences(s) == s,
    decreases s.len(),
{
    if s.len() > 0 {
        let init = s.drop_last();
        let last = s.last();
        let before = first_occurrences(init);
        lemma_first_occurrences_of_unique(init);
        assert(s =~= init.push(last));
        assert forall|x: Seq<char>| #[trigger] first_occurrences(s).contains(x) <==> s.contains(
            x,
        ) by {
            if s.contains(x) && x != last {
                let k = choose|k: int| 0 <= k < s.len() && s[k] == x;
                assert(init[k] == x);
                assert(init.contains(x));
                assert(before.contains(x));
                let j = choose|j: int| 0 <= j < before.len() && before[j] == x;
                assert(before.push(last)[j] == x);
            }
            if x == last && !before.contains(last) {
                assert(before.push(last)[before.len() as int] == x);
            }
            if first_occurrences(s).contains(x) && x != last {
                if !before.contains(last) {
                    let j = choose|j: int| 0 <= j < before.len() + 1 && before.push(last)[j] == x;
                    assert(before[j] == x);
                }
                assert(before.contains(x));
                assert(init.contains(x));
                let k = choose|k: int| 0 <= k < init.len() && init[k] == x;
                assert(s[k] == x);
            }
            assert(s[s.len() - 1] == last);
        }
        if s.no_duplicates() {
            assert(!init.contains(s.last())) by {
                if init.contains(s.last()) {
                    let k = choose|k: int| 0 <= k < init.len() && init[k] == s.last();
                    assert(s[k] == s[s.len() - 1]);
                }
            }
        }
    }
}

/// What `serde_json::from_str` makes of a text as a JSON array of strings:
/// the strings, or nothing when the text is not such an array.
pub uninterp spec fn parsed_string_array(text: Seq<char>) -> Option<Seq<Seq<char>>>;

/// The text `serde_json::to_string_pretty` writes for an array of strings.
pub uninterp spec fn pretty_string_array(items: Seq<Seq<char>>) -> Seq<char>;

/// Relies on `serde_json::from_str::<Vec<String>>`: reads a JSON array of
/// strings; the outcome depends on the text alone.
#[verifier::external_body]
fn parse_string_array(text: &str) -> (r: Option<Vec<String>>)
    ensures
        r matches Some(v) ==> parsed_string_array(text@) == Some(texts(v@)),
        r is None ==> parsed_string_array(text@) is None,
{
    serde_json::from_str::<Vec<String>>(text).ok()
}

/// Relies on `serde_json::to_string_pretty` on a `Vec<String>`: writes it as
/// an indented JSON array; the text depends on the strings alone. It fails
/// only for a `Serialize` impl that fails or a map with non-string keys,
/// neither of which a `Vec<String>` has.
#[verifier::external_body]
fn write_string_array(items: &Vec<String>) -> (r: Option<String>)
    ensures
        r is Some,
        r matches Some(t) ==> t@ == pretty_string_array(texts(items@)),
{
    serde_json::to_string_pretty(items).ok()
}

/// The hostnames whose sites are blocked: a set kept in the order the names
/// were first added.
pub struct SiteList {
    urls: Vec<String>,
}

impl View for SiteList {
    type V = Seq<Seq<char>>;

    closed spec fn view(&self) -> Seq<Seq<char>> {
        texts(self.urls@)
    }
}

impl SiteList {
    #[verifier::type_invariant]
    spec fn inv(self) -> bool {
        texts(self.urls@).no_duplicates()
    }

    /// An empty list.
    pub fn new() -> (r: Self)
        ensures
            r@ == Seq::<Seq<char>>::empty(),
            r@.no_duplicates(),
    {
        SiteList { urls: Vec::new() }
    }

    fn position(&self, url: &String) -> (r: Option<usize>)
        ensures
            r matches Some(i) ==> i < self@.len() && self@[i as int] == url@,
            r is None ==> !self@.contains(url@),
    {
        let mut i: usize = 0;
        while i < self.urls.len()
            invariant
                i <= self.urls.len(),
                forall|k: int| 0 <= k < i ==> self@[k] != url@,
            decreases self.urls.len() - i,
        {
            if self.urls[i] == *url {
                return Some(i);
            }
            i = i + 1;
        }
        None
    }

    /// Whether `url` is in the list.
    pub fn contains(&self, url: &str) -> (r: bool)
        ensures
            r == self@.contains(url@),
            self@.no_duplicates(),
    {
        proof {
            use_type_invariant(self);
        }
        let target = String::from_str(url);
        self.position(&target).is_some()
    }

    fn insert(&mut self, url: String) -> (inserted: bool)
        ensures
            inserted == !old(self)@.contains(url@),
            final(self)@ == (if inserted {
                old(self)@.push(url@)
            } else {
                old(self)@
            }),
            final(self)@.contains(url@),
            final(self)@.no_duplicates(),
    {
        proof {
            use_type_invariant(&*self);
        }
        if let Some(i) = self.position(&url) {
            assert(self@[i as int] == url@);
            return false;
        }
        let mut taken = SiteList::new();
        std::mem::swap(self, &mut taken);
        let mut urls = taken.urls;
        urls.push(url);
        proof {
            assert(texts(urls@) =~= texts(old(self).urls@).push(url@));
            assert(texts(urls@)[texts(urls@).len() - 1] == url@);
        }
        *self = SiteList { urls };
        true
    }

    fn delete(&mut self, url: &String) -> (removed: bool)
        ensures
            removed == old(self)@.contains(url@),
            final(self)@ == old(self)@.remove_value(url@),
            !final(self)@.contains(url@),
            final(self)@.no_duplicates(),
    {
        proof {
            use_type_invariant(&*self);
            self@.index_of_first_ensures(url@);
        }
        match self.position(url) {
            None => {
                proof {
                    use_type_invariant(&*self);
                }
                false
            },
            Some(i) => {
                let ghost before = self@;
                proof {
                    before.index_of_first_ensures(url@);
                    assert(before.index_of_first(url@) == Some(i as int));
                }
                let mut taken = SiteList::new();
                std::mem::swap(self, &mut taken);
                let mut urls = taken.urls;
                urls.remove(i);
                proof {
                    assert(texts(urls@) =~= before.remove(i as int));
                    before.remove_ensures(i as int);
                }
                *self = SiteList { urls };
                proof {
                    use_type_invariant(&*self);
                    assert forall|k: int| 0 <= k < self@.len() implies self@[k] != url@ by {
                        if k < i {
                            assert(self@[k] == before[k]);
                        } else {
                            assert(self@[k] == before[k + 1]);
                        }
                    }
                }
                true
            },
        }
    }

    /// The hostnames, in the order they were added.
    pub fn entries(&self) -> (r: Vec<String>)
        ensures
            texts(r@) == self@,
            self@.no_duplicates(),
    {
        proof {
            use_type_invariant(self);
        }
        self.urls.clone()
    }

    /// The list holding each hostname of `entries` once, in order of first
    /// occurrence.
    pub fn from_entries(entries: &Vec<String>) -> (r: Self)
        ensures
            r@ == first_occurrences(texts(entries@)),
            r@.no_duplicates(),
            texts(entries@).no_duplicates() ==> r@ == texts(entries@),
    {
        proof {
            lemma_first_occurrences_of_unique(texts(entries@));
        }
        let mut list = SiteList::new();
        let mut i: usize = 0;
        while i < entries.len()
            invariant
                i <= entries.len(),
                list@ == first_occurrences(texts(entries@).subrange(0, i as int)),
            decreases entries.len() - i,
        {
            let ghost before = texts(entries@).subrange(0, i as int);
            let ghost after = texts(entries@).subrange(0, i + 1);
            proof {
                assert(after.drop_last() =~= before);
            }
            let e = entries[i].clone();
            list.insert(e);
            i = i + 1;
        }
        proof {
            assert(texts(entries@).subrange(0, entries@.len() as int) =~= texts(entries@));
            use_type_invariant(&list);
        }
        list
    }
}

/// Adds `new_url` unless it is already listed; says whether it was added.
pub fn add_url(urls: &mut SiteList, new_url: &str) -> (inserted: bool)
    ensures
        inserted == !old(urls)@.contains(new_url@),
        final(urls)@ == (if inserted {
            old(urls)@.push(new_url@)
        } else {
            old(urls)@
        }),
        final(urls)@.contains(new_url@),
        final(urls)@.no_duplicates(),
{
    urls.insert(String::from_str(new_url))
}

/// Removes `target` if it is listed; says whether it was.
pub fn remove_url(urls: &mut SiteList, target: &str) -> (removed: bool)
    ensures
        removed == old(urls)@.contains(target@),
        final(urls)@ == old(urls)@.remove_value(target@),
        !final(urls)@.contains(target@),
        final(urls)@.no_duplicates(),
{
    urls.delete(&String::from_str(target))
}

/// The listed hostnames, in the order they were added.
pub fn list_urls(urls: &SiteList) -> (r: Vec<String>)
    ensures
        texts(r@) == urls@,
        texts(r@).no_duplicates(),
{
    urls.entries()
}

/// The list stored as `content`: the strings of a JSON array, each once, or
/// an empty list when `content` is no such array.
pub fn decode_urls(content: &str) -> (r: SiteList)
    ensures
        r@ == (match parsed_string_array(content@) {
            Some(items) => first_occurrences(items),
            None => Seq::empty(),
        }),
        r@.no_duplicates(),
{
    match parse_string_array(content) {
        Some(items) => SiteList::from_entries(&items),
        None => SiteList::new(),
    }
}

/// The list as the indented JSON array it is stored as.
pub fn encode_urls(urls: &SiteList) -> (r: String)
    ensures
        r@ == pretty_string_array(urls@),
{
    match write_string_array(&urls.entries()) {
        Some(text) => text,
        None => String::new(),
    }
}

} // verus!
