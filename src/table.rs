use vstd::prelude::*;
use vstd::string::StringSliceAdditionalSpecFns;

verus! {

broadcast use vstd::utf8::encode_utf8_decode_utf8;

/// Exact, case-sensitive comparison of two strings, byte by byte.
pub fn same_key(a: &str, b: &str) -> (r: bool)
    ensures
        r == (a@ == b@),
{
    let x = a.as_bytes();
    let y = b.as_bytes();
    if x.len() != y.len() {
        proof {
            if a@ == b@ {
                assert(x@ == y@);
            }
        }
        return false;
    }
    let mut i: usize = 0;
    while i < x.len()
        invariant
            x@ == a.spec_bytes(),
            y@ == b.spec_bytes(),
            x@.len() == y@.len(),
            i <= x@.len(),
            forall|j: int| 0 <= j < i ==> x@[j] == y@[j],
        decreases x@.len() - i,
    {
        if x[i] != y[i] {
            return false;
        }
        i = i + 1;
    }
    proof {
        assert(x@ =~= y@);
        assert(vstd::utf8::decode_utf8(a.spec_bytes()) == a@);
        assert(vstd::utf8::decode_utf8(b.spec_bytes()) == b@);
    }
    true
}


/// One shortlink: a short key and the absolute URL it redirects to.
#[derive(Clone, Copy)]
pub struct Shortlink {
    pub key: &'static str,
    pub target: &'static str,
}

/// Why a list of shortlinks cannot form a table.
#[derive(Clone, Copy, Debug, PartialEq, Eq, Structural)]
pub enum TableError {
    /// Two entries share a key.
    DuplicateKey,
    /// No entry has the designated root key.
    MissingRoot,
}

/// No two entries of `s` share a key.
pub open spec fn keys_unique(s: Seq<Shortlink>) -> bool {
    forall|i: int, j: int|
        0 <= i < s.len() && 0 <= j < s.len() && i != j ==> s[i].key@ != s[j].key@
}

/// Some entry of `s` has key `k`.
pub open spec fn lists_key(s: Seq<Shortlink>, k: Seq<char>) -> bool {
    exists|i: int| 0 <= i < s.len() && s[i].key@ == k
}

/// The mapping from key to target that the entries `s` describe.
pub open spec fn links_map(s: Seq<Shortlink>) -> Map<Seq<char>, Seq<char>> {
    Map::new(
        |k: Seq<char>| lists_key(s, k),
        |k: Seq<char>| s[choose|i: int| 0 <= i < s.len() && s[i].key@ == k].target@,
    )
}

/// With unique keys, the entry at index `i` is what the mapping holds for its key.
pub proof fn lemma_links_map_entry(s: Seq<Shortlink>, i: int)
    requires
        keys_unique(s),
        0 <= i < s.len(),
    ensures
        links_map(s).contains_key(s[i].key@),
        links_map(s)[s[i].key@] == s[i].target@,
{
    let k = s[i].key@;
    assert(lists_key(s, k));
    let c = choose|c: int| 0 <= c < s.len() && s[c].key@ == k;
    assert(c == i);
}

/// Index of the entry of `entries` whose key is `key`, if any.
fn position_of(entries: &Vec<Shortlink>, key: &str) -> (r: Option<usize>)
    ensures
        match r {
            Some(i) => i < entries@.len() && entries@[i as int].key@ == key@,
            None => !lists_key(entries@, key@),
        },
{
    let mut i: usize = 0;
    while i < entries.len()
        invariant
            i <= entries@.len(),
            forall|j: int| 0 <= j < i ==> entries@[j].key@ != key@,
        decreases entries@.len() - i,
    {
        if same_key(entries[i].key, key) {
            return Some(i);
        }
        i = i + 1;
    }
    None
}


/// Whether the keys of `entries` are pairwise distinct.
fn all_keys_distinct(entries: &Vec<Shortlink>) -> (r: bool)
    ensures
        r == keys_unique(entries@),
{
    let mut i: usize = 0;
    while i < entries.len()
        invariant
            i <= entries@.len(),
            forall|a: int, b: int|
                0 <= a < i && 0 <= b < entries@.len() && a != b ==> entries@[a].key@
                    != entries@[b].key@,
        decreases entries@.len() - i,
    {
        let mut j: usize = 0;
        while j < entries.len()
            invariant
                i < entries@.len(),
                j <= entries@.len(),
                forall|a: int, b: int|
                    0 <= a < i && 0 <= b < entries@.len() && a != b ==> entries@[a].key@
                        != entries@[b].key@,
                forall|b: int| 0 <= b < j && b != i ==> entries@[i as int].key@ != entries@[b].key@,
            decreases entries@.len() - j,
        {
            if j != i && same_key(entries[i].key, entries[j].key) {
                return false;
            }
            j = j + 1;
        }
        i = i + 1;
    }
    true
}

/// `r` is a correct answer to a lookup of `key` in the mapping `m`.
pub open spec fn lookup_answer(m: Map<Seq<char>, Seq<char>>, key: Seq<char>, r: Option<&'static str>) -> bool {
    match r {
        Some(t) => m.contains_key(key) && t@ == m[key],
        None => !m.contains_key(key),
    }
}

/// An immutable table of shortlinks with a designated root key, which is always listed.
pub struct RedirectTable {
    entries: Vec<Shortlink>,
    root: &'static str,
}

impl RedirectTable {
    /// Keys are unique and the root key is listed.
    pub closed spec fn well_formed(&self) -> bool {
        keys_unique(self.entries@) && lists_key(self.entries@, self.root@)
    }

    /// The mapping from key to target.
    pub closed spec fn view(&self) -> Map<Seq<char>, Seq<char>> {
        links_map(self.entries@)
    }

    /// The key whose target is also served at the root path.
    pub closed spec fn root_key(&self) -> Seq<char> {
        self.root@
    }

    /// A well-formed table always holds its root key.
    pub proof fn lemma_root_listed(&self)
        requires
            self.well_formed(),
        ensures
            self@.contains_key(self.root_key()),
    {
    }

    /// Builds a table from `entries`, with `root` as root key. Fails when two
    /// entries share a key, or else when no entry has the root key.
    pub fn new(entries: Vec<Shortlink>, root: &'static str) -> (r: Result<RedirectTable, TableError>)
        ensures
            r is Ok <==> keys_unique(entries@) && lists_key(entries@, root@),
            r matches Ok(t) ==> t.well_formed() && t@ == links_map(entries@) && t.root_key()
                == root@,
            r == Err::<RedirectTable, TableError>(TableError::DuplicateKey) <==> !keys_unique(
                entries@,
            ),
            r == Err::<RedirectTable, TableError>(TableError::MissingRoot) <==> keys_unique(
                entries@,
            ) && !lists_key(entries@, root@),
    {
        if !all_keys_distinct(&entries) {
            return Err(TableError::DuplicateKey);
        }
        match position_of(&entries, root) {
            Some(_) => Ok(RedirectTable { entries, root }),
            None => Err(TableError::MissingRoot),
        }
    }

    /// The target of `key`, by exact, case-sensitive match; `None` for an unknown key.
    pub fn lookup(&self, key: &str) -> (r: Option<&'static str>)
        requires
            self.well_formed(),
        ensures
            lookup_answer(self@, key@, r),
            r is Some <==> self@.contains_key(key@),
            r matches Some(t) ==> t@ == self@[key@],
    {
        match position_of(&self.entries, key) {
            Some(i) => {
                proof {
                    lemma_links_map_entry(self.entries@, i as int);
                }
                Some(self.entries[i].target)
            },
            None => None,
        }
    }

    /// The target of the root key.
    pub fn root_target(&self) -> (r: &'static str)
        requires
            self.well_formed(),
        ensures
            self@.contains_key(self.root_key()),
            r@ == self@[self.root_key()],
    {
        proof {
            self.lemma_root_listed();
        }
        self.lookup(self.root).unwrap()
    }
}


/// Key of the entry that is also served at the root path.
pub const ROOT_KEY: &'static str = "root";

/// The shortlinks this service answers for.
pub open spec fn standard_links() -> Seq<Shortlink> {
    seq![
        Shortlink { key: "root", target: "https://rust-for-rustaceans.com" },
        Shortlink { key: "youtube", target: "https://www.youtube.com/@jonhoo" },
        Shortlink { key: "places", target: "https://www.ralfj.de/blog/2024/08/14/places.html" },
        Shortlink { key: "tmp-scopes", target: "https://doc.rust-lang.org/nightly/reference/destructors.html#temporary-scopes" },
        Shortlink { key: "captures", target: "https://blog.rust-lang.org/2024/09/05/impl-trait-capture-rules/" },
        Shortlink { key: "dyn-compat", target: "https://internals.rust-lang.org/t/object-safety-is-a-terrible-term/21025" },
        Shortlink { key: "downcast-risk", target: "https://github.com/rust-lang/rfcs/pull/2895#discussion_r1894674526" },
        Shortlink { key: "rfc2895", target: "https://github.com/rust-lang/rfcs/pull/2895" },
        Shortlink { key: "cf-unwrap", target: "https://blog.cloudflare.com/18-november-2025-outage/#memory-preallocation" },
        Shortlink { key: "try", target: "https://github.com/rust-lang/rust/issues/84277" },
        Shortlink { key: "try-blocks", target: "https://github.com/rust-lang/rust/issues/31436" },
        Shortlink { key: "insta", target: "https://insta.rs/" },
        Shortlink { key: "const-mut", target: "https://github.com/rust-lang/unsafe-code-guidelines/issues/257" },
        Shortlink { key: "about", target: "https://github.com/jonhoo/onwards" },
        Shortlink { key: "humans.txt", target: "https://thesquareplanet.com" },
    ]
}

/// The mapping from key to target of the shortlinks this service answers for.
pub open spec fn standard_map() -> Map<Seq<char>, Seq<char>> {
    links_map(standard_links())
}

/// The built-in list has unique keys and lists the root key.
pub proof fn lemma_standard_links_valid()
    ensures
        keys_unique(standard_links()),
        lists_key(standard_links(), ROOT_KEY@),
{
    reveal_strlit("root");
    reveal_strlit("youtube");
    reveal_strlit("places");
    reveal_strlit("tmp-scopes");
    reveal_strlit("captures");
    reveal_strlit("dyn-compat");
    reveal_strlit("downcast-risk");
    reveal_strlit("rfc2895");
    reveal_strlit("cf-unwrap");
    reveal_strlit("try");
    reveal_strlit("try-blocks");
    reveal_strlit("insta");
    reveal_strlit("const-mut");
    reveal_strlit("about");
    reveal_strlit("humans.txt");
    let s = standard_links();
    assert(s[0].key@.len() == 4 && s[0].key@[0] == 'r' && s[0].key@[1] == 'o');
    assert(s[1].key@.len() == 7 && s[1].key@[0] == 'y' && s[1].key@[1] == 'o');
    assert(s[2].key@.len() == 6 && s[2].key@[0] == 'p' && s[2].key@[1] == 'l');
    assert(s[3].key@.len() == 10 && s[3].key@[0] == 't' && s[3].key@[1] == 'm');
    assert(s[4].key@.len() == 8 && s[4].key@[0] == 'c' && s[4].key@[1] == 'a');
    assert(s[5].key@.len() == 10 && s[5].key@[0] == 'd' && s[5].key@[1] == 'y');
    assert(s[6].key@.len() == 13 && s[6].key@[0] == 'd' && s[6].key@[1] == 'o');
    assert(s[7].key@.len() == 7 && s[7].key@[0] == 'r' && s[7].key@[1] == 'f');
    assert(s[8].key@.len() == 9 && s[8].key@[0] == 'c' && s[8].key@[1] == 'f');
    assert(s[9].key@.len() == 3 && s[9].key@[0] == 't' && s[9].key@[1] == 'r');
    assert(s[10].key@.len() == 10 && s[10].key@[0] == 't' && s[10].key@[1] == 'r');
    assert(s[11].key@.len() == 5 && s[11].key@[0] == 'i' && s[11].key@[1] == 'n');
    assert(s[12].key@.len() == 9 && s[12].key@[0] == 'c' && s[12].key@[1] == 'o');
    assert(s[13].key@.len() == 5 && s[13].key@[0] == 'a' && s[13].key@[1] == 'b');
    assert(s[14].key@.len() == 10 && s[14].key@[0] == 'h' && s[14].key@[1] == 'u');
    assert forall|i: int, j: int| 0 <= i < s.len() && 0 <= j < s.len() && i != j implies s[i].key@
        != s[j].key@ by {
        if s[i].key@ == s[j].key@ {
            assert(s[i].key@[0] == s[j].key@[0] && s[i].key@[1] == s[j].key@[1]);
        }
    }
    assert(s[0].key@ == ROOT_KEY@);
}

/// The shortlinks this service answers for, as a list.
pub fn shortlinks() -> (r: Vec<Shortlink>)
    ensures
        r@ == standard_links(),
{
    let r = vec![
        Shortlink { key: "root", target: "https://rust-for-rustaceans.com" },
        Shortlink { key: "youtube", target: "https://www.youtube.com/@jonhoo" },
        Shortlink { key: "places", target: "https://www.ralfj.de/blog/2024/08/14/places.html" },
        Shortlink { key: "tmp-scopes", target: "https://doc.rust-lang.org/nightly/reference/destructors.html#temporary-scopes" },
        Shortlink { key: "captures", target: "https://blog.rust-lang.org/2024/09/05/impl-trait-capture-rules/" },
        Shortlink { key: "dyn-compat", target: "https://internals.rust-lang.org/t/object-safety-is-a-terrible-term/21025" },
        Shortlink { key: "downcast-risk", target: "https://github.com/rust-lang/rfcs/pull/2895#discussion_r1894674526" },
        Shortlink { key: "rfc2895", target: "https://github.com/rust-lang/rfcs/pull/2895" },
        Shortlink { key: "cf-unwrap", target: "https://blog.cloudflare.com/18-november-2025-outage/#memory-preallocation" },
        Shortlink { key: "try", target: "https://github.com/rust-lang/rust/issues/84277" },
        Shortlink { key: "try-blocks", target: "https://github.com/rust-lang/rust/issues/31436" },
        Shortlink { key: "insta", target: "https://insta.rs/" },
        Shortlink { key: "const-mut", target: "https://github.com/rust-lang/unsafe-code-guidelines/issues/257" },
        Shortlink { key: "about", target: "https://github.com/jonhoo/onwards" },
        Shortlink { key: "humans.txt", target: "https://thesquareplanet.com" },
    ];
    assert(r@ =~= standard_links());
    r
}


/// Lookups are repeatable: two answers for the same key from the same table
/// name the same target, or both say the key is unknown.
pub proof fn lemma_lookup_repeatable(
    table: &RedirectTable,
    key: Seq<char>,
    a: Option<&'static str>,
    b: Option<&'static str>,
)
    requires
        table.well_formed(),
        lookup_answer(table@, key, a),
        lookup_answer(table@, key, b),
    ensures
        a is Some <==> b is Some,
        a matches Some(x) ==> (b matches Some(y) && x@ == y@),
{
}

impl RedirectTable {
    /// The table of the built-in shortlinks, with `ROOT_KEY` as root key.
    pub fn standard() -> (r: RedirectTable)
        ensures
            r.well_formed(),
            r@ == standard_map(),
            r.root_key() == ROOT_KEY@,
    {
        proof {
            lemma_standard_links_valid();
        }
        RedirectTable { entries: shortlinks(), root: ROOT_KEY }
    }
}

/// The target of `short` among the built-in shortlinks; `None` for an unknown key.
pub fn forwards_to(short: &str) -> (r: Option<&'static str>)
    ensures
        r is Some <==> standard_map().contains_key(short@),
        r matches Some(t) ==> t@ == standard_map()[short@],
{
    RedirectTable::standard().lookup(short)
}

} // verus!
