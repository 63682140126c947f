//! The list of wiki sites to search: its entries, kept in the order of
//! their names, and what keys do on the list.

use vstd::prelude::*;
use crate::text::{chars_of, push_chars, starts_with, ends_with, last_index, first_index};

verus! {

/// Whether a site is picked.
#[derive(Debug, Clone, Copy, PartialEq, Eq, Structural)]
pub enum Status {
    Unselected,
    Selected,
}

/// A wiki site: its status, its name, a description and the address of
/// its search interface.
pub struct WikiItem {
    pub status: Status,
    pub wiki: String,
    pub info: String,
    pub url: String,
}

impl WikiItem {
    /// A site from its parts.
    pub fn new(status: Status, wiki: &str, info: &str, url: &str) -> (r: WikiItem)
        ensures
            r.status == status,
            r.wiki@ == wiki@,
            r.info@ == info@,
            r.url@ == url@,
    {
        WikiItem { status, wiki: wiki.to_owned(), info: info.to_owned(), url: url.to_owned() }
    }
}

/// `a` comes before `b` in the order of strings: lexicographic by
/// character code, a proper prefix first (`Ord` on `String`, which orders
/// UTF-8 bytes the same way).
pub open spec fn lex_lt(a: Seq<char>, b: Seq<char>) -> bool
    decreases a.len(),
{
    if a.len() == 0 {
        b.len() > 0
    } else if b.len() == 0 {
        false
    } else if a[0] < b[0] {
        true
    } else if a[0] > b[0] {
        false
    } else {
        lex_lt(a.drop_first(), b.drop_first())
    }
}

/// No string comes before itself.
pub proof fn lemma_lex_irreflexive(a: Seq<char>)
    ensures
        !lex_lt(a, a),
    decreases a.len(),
{
    if a.len() > 0 {
        lemma_lex_irreflexive(a.drop_first());
    }
}

/// The order of strings is transitive.
pub proof fn lemma_lex_transitive(a: Seq<char>, b: Seq<char>, c: Seq<char>)
    requires
        lex_lt(a, b),
        lex_lt(b, c),
    ensures
        lex_lt(a, c),
    decreases a.len(),
{
    if a.len() > 0 && b.len() > 0 && c.len() > 0 {
        if a[0] == b[0] && b[0] == c[0] {
            lemma_lex_transitive(a.drop_first(), b.drop_first(), c.drop_first());
        }
    }
}

/// Whether `a` comes before `b` in the order of strings.
pub fn str_lt(a: &str, b: &str) -> (r: bool)
    ensures
        r == lex_lt(a@, b@),
{
    let u = chars_of(a);
    let v = chars_of(b);
    let mut i: usize = 0;
    assert(u@.skip(0) =~= u@);
    assert(v@.skip(0) =~= v@);
    while i < u.len() && i < v.len() && u[i] == v[i]
        invariant
            u@ == a@,
            v@ == b@,
            i <= u.len(),
            i <= v.len(),
            lex_lt(u@.skip(i as int), v@.skip(i as int)) == lex_lt(a@, b@),
        decreases u.len() - i,
    {
        assert(u@.skip(i as int).drop_first() =~= u@.skip(i as int + 1));
        assert(v@.skip(i as int).drop_first() =~= v@.skip(i as int + 1));
        i = i + 1;
    }
    if i == u.len() {
        i < v.len()
    } else if i == v.len() {
        false
    } else {
        u[i] < v[i]
    }
}

/// The items are in the order of their names.
pub open spec fn sorted_by_wiki(items: Seq<WikiItem>) -> bool {
    forall|i: int, j: int| 0 <= i < j < items.len() ==> !lex_lt(items[j].wiki@, items[i].wiki@)
}

/// `dst` holds the items of `src` rearranged, `dst[i]` being `src[origin[i]]`,
/// each used once, and items of equal names in their order in `src`.
pub open spec fn stable_arrangement(src: Seq<WikiItem>, dst: Seq<WikiItem>, origin: Seq<int>) -> bool {
    &&& origin.len() == dst.len()
    &&& dst.len() == src.len()
    &&& forall|i: int| 0 <= i < dst.len() ==> 0 <= #[trigger] origin[i] < src.len() && dst[i] == src[origin[i]]
    &&& forall|i: int, j: int| 0 <= i < j < dst.len() ==> origin[i] != origin[j]
    &&& forall|i: int, j: int| 0 <= i < j < dst.len() && dst[i].wiki@ == dst[j].wiki@ ==> origin[i] < origin[j]
}

/// The other status.
pub open spec fn flipped(s: Status) -> Status {
    match s {
        Status::Selected => Status::Unselected,
        Status::Unselected => Status::Selected,
    }
}

/// The list of sites.
pub struct WikiList {
    pub items: Vec<WikiItem>,
}

impl WikiList {
    /// The list of the given sites in the order of their names, sites of
    /// equal names in the order given (`sort_by` on the names, a stable sort).
    pub fn from_entries(entries: Vec<WikiItem>) -> (r: WikiList)
        ensures
            sorted_by_wiki(r.items@),
            exists|origin: Seq<int>| stable_arrangement(entries@, r.items@, origin),
    {
        let ghost src = entries@;
        let mut rest = entries;
        let mut items: Vec<WikiItem> = Vec::new();
        let ghost mut origin: Seq<int> = Seq::empty();
        let mut n: usize = 0;
        assert(src.len() == rest.len());
        assert(rest@ =~= src.skip(0));
        while rest.len() > 0
            invariant
                rest@ == src.skip(n as int),
                n <= src.len(),
                src.len() <= usize::MAX,
                items@.len() == n,
                origin.len() == n,
                sorted_by_wiki(items@),
                forall|i: int| 0 <= i < n ==> 0 <= #[trigger] origin[i] < n && items@[i] == src[origin[i]],
                forall|i: int, j: int| 0 <= i < j < n ==> origin[i] != origin[j],
                forall|i: int, j: int| 0 <= i < j < n && items@[i].wiki@ == items@[j].wiki@ ==> origin[i] < origin[j],
            decreases rest.len(),
        {
            assert(rest@[0] == src[n as int]);
            let item = rest.remove(0);
            assert(rest@ =~= src.skip(n as int + 1));
            // the first place whose name comes after the new item's
            let mut p: usize = 0;
            while p < items.len() && !str_lt(item.wiki.as_str(), items[p].wiki.as_str())
                invariant
                    p <= items.len(),
                    forall|k: int| 0 <= k < p ==> !lex_lt(item.wiki@, #[trigger] items@[k].wiki@),
                decreases items.len() - p,
            {
                p = p + 1;
            }
            let ghost old_items = items@;
            let ghost old_origin = origin;
            proof {
                assert forall|k: int| p <= k < old_items.len() implies !lex_lt(
                    #[trigger] old_items[k].wiki@,
                    item.wiki@,
                ) && old_items[k].wiki@ != item.wiki@ by {
                    assert(lex_lt(item.wiki@, old_items[p as int].wiki@));
                    if k == p {
                        lemma_lex_irreflexive(item.wiki@);
                        if lex_lt(old_items[k].wiki@, item.wiki@) {
                            lemma_lex_transitive(
                                old_items[k].wiki@,
                                item.wiki@,
                                old_items[p as int].wiki@,
                            );
                            lemma_lex_irreflexive(old_items[k].wiki@);
                        }
                    } else {
                        assert(!lex_lt(old_items[k].wiki@, old_items[p as int].wiki@));
                        if lex_lt(old_items[k].wiki@, item.wiki@) {
                            lemma_lex_transitive(
                                old_items[k].wiki@,
                                item.wiki@,
                                old_items[p as int].wiki@,
                            );
                        }
                    }
                }
            }
            items.insert(p, item);
            proof {
                origin = old_origin.insert(p as int, n as int);
                let new_items = items@;
                assert(new_items == old_items.insert(p as int, src[n as int]));
                assert forall|i: int| 0 <= i < n + 1 implies 0 <= #[trigger] origin[i] < n + 1
                    && new_items[i] == src[origin[i]] by {
                    if i < p {
                        assert(origin[i] == old_origin[i]);
                    } else if i > p {
                        assert(origin[i] == old_origin[i - 1]);
                    }
                }
                assert forall|i: int, j: int| 0 <= i < j < n + 1 implies origin[i] != origin[j] by {
                    if i != p && j != p {
                        let oi = if i < p { i } else { i - 1 };
                        let oj = if j < p { j } else { j - 1 };
                        assert(origin[i] == old_origin[oi]);
                        assert(origin[j] == old_origin[oj]);
                    } else if i == p {
                        assert(origin[j] == old_origin[j - 1]);
                    } else {
                        assert(origin[i] == old_origin[i]);
                    }
                }
                assert forall|i: int, j: int| 0 <= i < j < new_items.len() implies !lex_lt(
                    new_items[j].wiki@,
                    new_items[i].wiki@,
                ) by {
                    if i != p && j != p {
                        let oi = if i < p { i } else { i - 1 };
                        let oj = if j < p { j } else { j - 1 };
                        assert(new_items[i] == old_items[oi]);
                        assert(new_items[j] == old_items[oj]);
                    } else if i == p {
                        assert(new_items[j] == old_items[j - 1]);
                    } else {
                        assert(new_items[i] == old_items[i]);
                    }
                }
                assert forall|i: int, j: int| 0 <= i < j < new_items.len()
                    && new_items[i].wiki@ == new_items[j].wiki@ implies origin[i] < origin[j] by {
                    if i != p && j != p {
                        let oi = if i < p { i } else { i - 1 };
                        let oj = if j < p { j } else { j - 1 };
                        assert(new_items[i] == old_items[oi]);
                        assert(new_items[j] == old_items[oj]);
                        assert(origin[i] == old_origin[oi]);
                        assert(origin[j] == old_origin[oj]);
                    } else if i == p {
                        assert(new_items[j] == old_items[j - 1]);
                    } else {
                        assert(new_items[i] == old_items[i]);
                        assert(origin[i] == old_origin[i]);
                    }
                }
            }
            n = n + 1;
        }
        assert(n == src.len());
        assert(stable_arrangement(src, items@, origin));
        assert(exists|o: Seq<int>| stable_arrangement(src, items@, o));
        WikiList { items }
    }
}


/// The status, name, description and address of each item.
pub open spec fn entry_views(items: Seq<WikiItem>) -> Seq<(Status, Seq<char>, Seq<char>, Seq<char>)> {
    items.map_values(|it: WikiItem| (it.status, it.wiki@, it.info@, it.url@))
}

/// The number of sites listed by default.
pub open spec fn default_count() -> nat {
    7
}

/// The site listed by default at position `i`.
pub open spec fn default_entry(i: int) -> (Status, Seq<char>, Seq<char>, Seq<char>) {
    if i == 0 {
        (Status::Unselected, "Ivycomb Wiki | MediaWiki | wiki.ivy.cm"@, "This wiki serves as the de-facto source for proven information (and occasional theories) on ivycomb's various projects, ranging from music, to Cosmic Critters and Antihuman, to general character and meta information. \n\nThis wiki is officially endorsed by and owned by ivycomb, but pages are edited and maintained by the community with limited input from the original creators."@, "https://wiki.ivy.cm/w/api.php?"@)
    } else if i == 1 {
        (Status::Unselected, "Alterhumanity Wiki | Fandom | alterhumanity.fandom.com"@, "Alterhumanity is a fandom wiki created by Humanwingz, This fandom wiki was created for the purpose of explaining Alterhuman terms, creating new Alterhuman terms, and created to shed light on Alterhumanity as a whole to the public."@, "https://alterhumanity.fandom.com/api.php?"@)
    } else if i == 2 {
        (Status::Unselected, "Alterhuman Wiki | MediaWiki | alterhuman.miraheze.org"@, "This is a wiki for all things alterhuman, or alternative to the common societal idea of humanity. Alterhuman includes, but is not limited to, therianthropy, otherkin, fictionkin, otherhearted, otherlink, plurality, and more. \n\nThis wik is dedicated to storing information on various alterhuman labels and the history of the alterhuman community as well as alterhuman symbols, flags, and other imagery. Alterhuman-adjacent topics are also welcome."@, "https://alterhuman.miraheze.org/w/api.php?"@)
    } else if i == 3 {
        (Status::Unselected, "LGBTQIA+ Wiki | MediaWiki | lgbtqia.wiki"@, "The LGBTQIA+ Wiki is a resource of LGBTQIA+ terminology and labels used by various queer communities, as well as the questioning and/or curious. The wiki is designed to be a helpful resource for explaining identities that are often unknown, unheard of, or difficult to find information for."@, "https://lgbtqia.wiki/w/api.php"@)
    } else if i == 4 {
        (Status::Unselected, "New LGBTQIA+ Wiki | MediaWiki | new.lgbtqia.wiki"@, "The LGBTQIA+ Wiki is a resource of LGBTQIA+ terminology and labels used by various queer communities, as well as the questioning and/or curious. The wiki is designed to be a helpful resource for explaining identities both known and unknown."@, "https://new.lgbtqia.wiki/w139/api.php?"@)
    } else if i == 5 {
        (Status::Unselected, "Wikipedia | MediaWiki | wikipedia.org"@, "The free encyclopedia that anyone can edit."@, "https://en.wikipedia.org/w/api.php"@)
    } else if i == 6 {
        (Status::Unselected, "Wiktionary | MediaWiki | wiktionary.org"@, "Welcome to the English-language Wiktionary, a collaborative project to produce a free-content multilingual dictionary. It aims to describe all words of all languages using definitions and descriptions in English."@, "https://en.wiktionary.org/w/api.php"@)
    } else {
        (Status::Unselected, Seq::empty(), Seq::empty(), Seq::empty())
    }
}

/// The domain a site's label names: its last word.
pub open spec fn label_domain(label: Seq<char>) -> Seq<char> {
    label.skip(last_index(label, ' ') + 1)
}

/// The host of an `https` address: what follows `https://` up to the next
/// `/`.
pub open spec fn url_host(url: Seq<char>) -> Seq<char> {
    url.skip(8).take(first_index(url.skip(8), '/'))
}

/// `host` is `domain` or a name under it.
pub open spec fn host_under(host: Seq<char>, domain: Seq<char>) -> bool {
    host == domain || ends_with(host, seq!['.'] + domain)
}

/// An address on the domain a label names, given where the label's last
/// space and the host's end are.
proof fn lemma_address_on_domain(label: Seq<char>, url: Seq<char>, l: int, f: int)
    requires
        0 <= l < label.len(),
        label[l] == ' ',
        forall|j: int| l < j < label.len() ==> label[j] != ' ',
        0 <= f,
        8 + f <= url.len(),
        url.take(8) == "https://"@,
        url.skip(8).take(f) == label.skip(l + 1) || ends_with(url.skip(8).take(f), seq!['.'] + label.skip(l + 1)),
        f < url.len() - 8 ==> url[8 + f] == '/',
        forall|j: int| 8 <= j < 8 + f ==> url[j] != '/',
    ensures
        starts_with(url, "https://"@),
        host_under(url_host(url), label_domain(label)),
{
    reveal_strlit("https://");
    lemma_last_index_at(label, ' ', l);
    lemma_first_index_at(url.skip(8), '/', f);
}

/// `c` stands at `l` and nowhere after it.
proof fn lemma_last_index_at(p: Seq<char>, c: char, l: int)
    requires
        0 <= l < p.len(),
        p[l] == c,
        forall|j: int| l < j < p.len() ==> p[j] != c,
    ensures
        last_index(p, c) == l,
    decreases p.len(),
{
    if l < p.len() - 1 {
        lemma_last_index_at(p.drop_last(), c, l);
    }
}

/// `c` stands nowhere before `f`, and at `f` unless `f` is the end.
proof fn lemma_first_index_at(p: Seq<char>, c: char, f: int)
    requires
        0 <= f <= p.len(),
        f < p.len() ==> p[f] == c,
        forall|j: int| 0 <= j < f ==> p[j] != c,
    ensures
        first_index(p, c) == f,
    decreases p.len(),
{
    if f > 0 {
        lemma_first_index_at(p.drop_first(), c, f - 1);
    }
}

/// Each site listed by default is searched at its own address: an `https`
/// address on the domain that the site's label names, so that no site is
/// searched on another's host.
pub proof fn lemma_default_addresses(i: int)
    requires
        0 <= i < default_count(),
    ensures
        starts_with(default_entry(i).3, "https://"@),
        host_under(url_host(default_entry(i).3), label_domain(default_entry(i).1)),
{
    reveal_strlit("https://");
    if i == 0 {
        let label = "Ivycomb Wiki | MediaWiki | wiki.ivy.cm"@;
        let url = "https://wiki.ivy.cm/w/api.php?"@;
        reveal_strlit("Ivycomb Wiki | MediaWiki | wiki.ivy.cm");
        reveal_strlit("https://wiki.ivy.cm/w/api.php?");
        assert(url.take(8) =~= "https://"@);
        assert(url.skip(8).take(11) =~= label.skip(27));
        lemma_address_on_domain(label, url, 26, 11);
    } else if i == 1 {
        let label = "Alterhumanity Wiki | Fandom | alterhumanity.fandom.com"@;
        let url = "https://alterhumanity.fandom.com/api.php?"@;
        reveal_strlit("Alterhumanity Wiki | Fandom | alterhumanity.fandom.com");
        reveal_strlit("https://alterhumanity.fandom.com/api.php?");
        assert(url.take(8) =~= "https://"@);
        assert(url.skip(8).take(24) =~= label.skip(30));
        lemma_address_on_domain(label, url, 29, 24);
    } else if i == 2 {
        let label = "Alterhuman Wiki | MediaWiki | alterhuman.miraheze.org"@;
        let url = "https://alterhuman.miraheze.org/w/api.php?"@;
        reveal_strlit("Alterhuman Wiki | MediaWiki | alterhuman.miraheze.org");
        reveal_strlit("https://alterhuman.miraheze.org/w/api.php?");
        assert(url.take(8) =~= "https://"@);
        assert(url.skip(8).take(23) =~= label.skip(30));
        lemma_address_on_domain(label, url, 29, 23);
    } else if i == 3 {
        let label = "LGBTQIA+ Wiki | MediaWiki | lgbtqia.wiki"@;
        let url = "https://lgbtqia.wiki/w/api.php"@;
        reveal_strlit("LGBTQIA+ Wiki | MediaWiki | lgbtqia.wiki");
        reveal_strlit("https://lgbtqia.wiki/w/api.php");
        assert(url.take(8) =~= "https://"@);
        assert(url.skip(8).take(12) =~= label.skip(28));
        lemma_address_on_domain(label, url, 27, 12);
    } else if i == 4 {
        let label = "New LGBTQIA+ Wiki | MediaWiki | new.lgbtqia.wiki"@;
        let url = "https://new.lgbtqia.wiki/w139/api.php?"@;
        reveal_strlit("New LGBTQIA+ Wiki | MediaWiki | new.lgbtqia.wiki");
        reveal_strlit("https://new.lgbtqia.wiki/w139/api.php?");
        assert(url.take(8) =~= "https://"@);
        assert(url.skip(8).take(16) =~= label.skip(32));
        lemma_address_on_domain(label, url, 31, 16);
    } else if i == 5 {
        let label = "Wikipedia | MediaWiki | wikipedia.org"@;
        let url = "https://en.wikipedia.org/w/api.php"@;
        reveal_strlit("Wikipedia | MediaWiki | wikipedia.org");
        reveal_strlit("https://en.wikipedia.org/w/api.php");
        assert(url.take(8) =~= "https://"@);
        assert(url.skip(8).take(16).skip(2) =~= seq!['.'] + label.skip(24));
        lemma_address_on_domain(label, url, 23, 16);
    } else if i == 6 {
        let label = "Wiktionary | MediaWiki | wiktionary.org"@;
        let url = "https://en.wiktionary.org/w/api.php"@;
        reveal_strlit("Wiktionary | MediaWiki | wiktionary.org");
        reveal_strlit("https://en.wiktionary.org/w/api.php");
        assert(url.take(8) =~= "https://"@);
        assert(url.skip(8).take(17).skip(2) =~= seq!['.'] + label.skip(25));
        lemma_address_on_domain(label, url, 24, 17);
    }
}

/// The sites listed by default, in the order given.
pub fn default_entries() -> (v: Vec<WikiItem>)
    ensures
        v@.len() == default_count(),
        forall|i: int| 0 <= i < default_count() ==> #[trigger] entry_views(v@)[i] == default_entry(i),
{
    let mut v: Vec<WikiItem> = Vec::new();
    v.push(
        WikiItem::new(
            Status::Unselected,
            "Ivycomb Wiki | MediaWiki | wiki.ivy.cm",
            "This wiki serves as the de-facto source for proven information (and occasional theories) on ivycomb's various projects, ranging from music, to Cosmic Critters and Antihuman, to general character and meta information. \n\nThis wiki is officially endorsed by and owned by ivycomb, but pages are edited and maintained by the community with limited input from the original creators.",
            "https://wiki.ivy.cm/w/api.php?",
        ),
    );
    v.push(
        WikiItem::new(
            Status::Unselected,
            "Alterhumanity Wiki | Fandom | alterhumanity.fandom.com",
            "Alterhumanity is a fandom wiki created by Humanwingz, This fandom wiki was created for the purpose of explaining Alterhuman terms, creating new Alterhuman terms, and created to shed light on Alterhumanity as a whole to the public.",
            "https://alterhumanity.fandom.com/api.php?",
        ),
    );
    v.push(
        WikiItem::new(
            Status::Unselected,
            "Alterhuman Wiki | MediaWiki | alterhuman.miraheze.org",
            "This is a wiki for all things alterhuman, or alternative to the common societal idea of humanity. Alterhuman includes, but is not limited to, therianthropy, otherkin, fictionkin, otherhearted, otherlink, plurality, and more. \n\nThis wik is dedicated to storing information on various alterhuman labels and the history of the alterhuman community as well as alterhuman symbols, flags, and other imagery. Alterhuman-adjacent topics are also welcome.",
            "https://alterhuman.miraheze.org/w/api.php?",
        ),
    );
    v.push(
        WikiItem::new(
            Status::Unselected,
            "LGBTQIA+ Wiki | MediaWiki | lgbtqia.wiki",
            "The LGBTQIA+ Wiki is a resource of LGBTQIA+ terminology and labels used by various queer communities, as well as the questioning and/or curious. The wiki is designed to be a helpful resource for explaining identities that are often unknown, unheard of, or difficult to find information for.",
            "https://lgbtqia.wiki/w/api.php",
        ),
    );
    v.push(
        WikiItem::new(
            Status::Unselected,
            "New LGBTQIA+ Wiki | MediaWiki | new.lgbtqia.wiki",
            "The LGBTQIA+ Wiki is a resource of LGBTQIA+ terminology and labels used by various queer communities, as well as the questioning and/or curious. The wiki is designed to be a helpful resource for explaining identities both known and unknown.",
            "https://new.lgbtqia.wiki/w139/api.php?",
        ),
    );
    v.push(
        WikiItem::new(
            Status::Unselected,
            "Wikipedia | MediaWiki | wikipedia.org",
            "The free encyclopedia that anyone can edit.",
            "https://en.wikipedia.org/w/api.php",
        ),
    );
    v.push(
        WikiItem::new(
            Status::Unselected,
            "Wiktionary | MediaWiki | wiktionary.org",
            "Welcome to the English-language Wiktionary, a collaborative project to produce a free-content multilingual dictionary. It aims to describe all words of all languages using definitions and descriptions in English.",
            "https://en.wiktionary.org/w/api.php",
        ),
    );
    v
}

impl WikiList {
    /// The default list: the default sites in the order of their names.
    pub fn default_list() -> (r: WikiList)
        ensures
            sorted_by_wiki(r.items@),
            exists|src: Seq<WikiItem>, origin: Seq<int>|
                #![trigger stable_arrangement(src, r.items@, origin)]
                src.len() == default_count()
                && (forall|i: int| 0 <= i < default_count() ==> #[trigger] entry_views(src)[i] == default_entry(i))
                && stable_arrangement(src, r.items@, origin),
            forall|i: int| 0 <= i < r.items@.len() ==> {
                let item = #[trigger] r.items@[i];
                &&& starts_with(item.url@, "https://"@)
                &&& host_under(url_host(item.url@), label_domain(item.wiki@))
            },
    {
        let entries = default_entries();
        let ghost src = entries@;
        let r = WikiList::from_entries(entries);
        let ghost origin = choose|o: Seq<int>| stable_arrangement(src, r.items@, o);
        assert(stable_arrangement(src, r.items@, origin));
        assert forall|i: int| 0 <= i < r.items@.len() implies {
            let item = #[trigger] r.items@[i];
            &&& starts_with(item.url@, "https://"@)
            &&& host_under(url_host(item.url@), label_domain(item.wiki@))
        } by {
            let k = origin[i];
            assert(entry_views(src)[k] == default_entry(k));
            lemma_default_addresses(k);
        }
        r
    }

    /// Changes the status of the selected site, if any: picked becomes
    /// unpicked and back; every other site stays as it is.
    pub fn toggle(&mut self, selected: Option<usize>)
        requires
            selected matches Some(i) ==> i < old(self).items@.len(),
        ensures
            final(self).items@.len() == old(self).items@.len(),
            match selected {
                Some(i) => {
                    &&& final(self).items@[i as int] == (WikiItem {
                        status: flipped(old(self).items@[i as int].status),
                        ..old(self).items@[i as int]
                    })
                    &&& forall|j: int| 0 <= j < old(self).items@.len() && j != i ==> final(self).items@[j] == old(self).items@[j]
                },
                None => final(self).items@ == old(self).items@,
            },
    {
        if let Some(i) = selected {
            let mut item = self.items.remove(i);
            item.status = match item.status {
                Status::Selected => Status::Unselected,
                Status::Unselected => Status::Selected,
            };
            self.items.insert(i, item);
            assert(self.items@.len() == old(self).items@.len());
        }
    }

    /// The description shown for the selected site, or `Nothing selected...`.
    pub fn selected_info(&self, selected: Option<usize>) -> (r: String)
        requires
            selected matches Some(i) ==> i < self.items@.len(),
        ensures
            r@ == (match selected {
                Some(i) => self.items@[i as int].info@,
                None => "Nothing selected..."@,
            }),
    {
        match selected {
            Some(i) => self.items[i].info.clone(),
            None => "Nothing selected...".to_owned(),
        }
    }
}

/// The label of a site in the list: a box, ticked when picked, then its name.
pub fn item_label(item: &WikiItem) -> (r: String)
    ensures
        r@ == (match item.status {
            Status::Unselected => " ☐ "@,
            Status::Selected => " ✓ "@,
        }) + item.wiki@,
{
    let mut r = match item.status {
        Status::Unselected => " ☐ ".to_owned(),
        Status::Selected => " ✓ ".to_owned(),
    };
    let w = chars_of(item.wiki.as_str());
    push_chars(&mut r, &w);
    r
}

/// The background of a row: rows alternate, starting with the normal one.
#[derive(Debug, Clone, Copy, PartialEq, Eq, Structural)]
pub enum RowShade {
    Normal,
    Alternate,
}

/// The background of the row with index `i`.
pub fn alternate_colors(i: usize) -> (r: RowShade)
    ensures
        r == (if i % 2 == 0 {
            RowShade::Normal
        } else {
            RowShade::Alternate
        }),
{
    if i % 2 == 0 {
        RowShade::Normal
    } else {
        RowShade::Alternate
    }
}

/// A key on the list screen.
#[derive(Debug, Clone, Copy, PartialEq, Eq, Structural)]
pub enum WikiKey {
    Char(char),
    Esc,
    Left,
    Right,
    Up,
    Down,
    Home,
    End,
    Enter,
    Other,
}

/// What a key does on the list screen.
#[derive(Debug, Clone, Copy, PartialEq, Eq, Structural)]
pub enum WikiAction {
    Quit,
    SelectNone,
    SelectNext,
    SelectPrevious,
    SelectFirst,
    SelectLast,
    ToggleStatus,
    Nothing,
}

/// What a key does: `q` or Esc leave; `a` or Left clear the selection; `s`
/// or Down and `w` or Up move it; `g` or Home and `G` or End go to the first
/// and last site; `d`, Right or Enter change the status of the selected
/// site.
pub open spec fn wiki_action_spec(key: WikiKey) -> WikiAction {
    match key {
        WikiKey::Char('q') | WikiKey::Esc => WikiAction::Quit,
        WikiKey::Char('a') | WikiKey::Left => WikiAction::SelectNone,
        WikiKey::Char('s') | WikiKey::Down => WikiAction::SelectNext,
        WikiKey::Char('w') | WikiKey::Up => WikiAction::SelectPrevious,
        WikiKey::Char('g') | WikiKey::Home => WikiAction::SelectFirst,
        WikiKey::Char('G') | WikiKey::End => WikiAction::SelectLast,
        WikiKey::Char('d') | WikiKey::Right | WikiKey::Enter => WikiAction::ToggleStatus,
        _ => WikiAction::Nothing,
    }
}

/// What a key does on the list screen.
pub fn handle_key(key: WikiKey) -> (a: WikiAction)
    ensures
        a == wiki_action_spec(key),
{
    match key {
        WikiKey::Char('q') | WikiKey::Esc => WikiAction::Quit,
        WikiKey::Char('a') | WikiKey::Left => WikiAction::SelectNone,
        WikiKey::Char('s') | WikiKey::Down => WikiAction::SelectNext,
        WikiKey::Char('w') | WikiKey::Up => WikiAction::SelectPrevious,
        WikiKey::Char('g') | WikiKey::Home => WikiAction::SelectFirst,
        WikiKey::Char('G') | WikiKey::End => WikiAction::SelectLast,
        WikiKey::Char('d') | WikiKey::Right | WikiKey::Enter => WikiAction::ToggleStatus,
        _ => WikiAction::Nothing,
    }
}

/// Each key of the list screen, key by key: `q` and Esc leave; `a` and Left
/// clear the selection; `s` and Down move it to the next site; `w` and Up
/// to the previous one; `g` and Home to the first; `G` and End to the last;
/// `d`, Right and Enter change the status of the selected site. So each
/// arrow or named key does what its letter does, and every other key does
/// nothing.
pub proof fn lemma_wiki_keys(c: char)
    ensures
        wiki_action_spec(WikiKey::Char('q')) == WikiAction::Quit,
        wiki_action_spec(WikiKey::Esc) == WikiAction::Quit,
        wiki_action_spec(WikiKey::Char('a')) == WikiAction::SelectNone,
        wiki_action_spec(WikiKey::Left) == WikiAction::SelectNone,
        wiki_action_spec(WikiKey::Char('s')) == WikiAction::SelectNext,
        wiki_action_spec(WikiKey::Down) == WikiAction::SelectNext,
        wiki_action_spec(WikiKey::Char('w')) == WikiAction::SelectPrevious,
        wiki_action_spec(WikiKey::Up) == WikiAction::SelectPrevious,
        wiki_action_spec(WikiKey::Char('g')) == WikiAction::SelectFirst,
        wiki_action_spec(WikiKey::Home) == WikiAction::SelectFirst,
        wiki_action_spec(WikiKey::Char('G')) == WikiAction::SelectLast,
        wiki_action_spec(WikiKey::End) == WikiAction::SelectLast,
        wiki_action_spec(WikiKey::Char('d')) == WikiAction::ToggleStatus,
        wiki_action_spec(WikiKey::Right) == WikiAction::ToggleStatus,
        wiki_action_spec(WikiKey::Enter) == WikiAction::ToggleStatus,
        wiki_action_spec(WikiKey::Other) == WikiAction::Nothing,
        c != 'q' && c != 'a' && c != 's' && c != 'w' && c != 'g' && c != 'G' && c != 'd'
            ==> wiki_action_spec(WikiKey::Char(c)) == WikiAction::Nothing,
{
}

} // verus!
