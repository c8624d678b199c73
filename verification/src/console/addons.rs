//! Which addons are enabled: the list kept in the proxy settings, and how a
//! toggle request changes it.

use crate::console::permissions::granted;
use crate::text::{concat, str_eq, to_chars};
use vstd::prelude::*;
use vstd::relations::{sorted_by, total_ordering};

verus! {

broadcast use vstd::seq_lib::group_to_multiset_ensures;

// ---------------------------------------------------------------------------
// Order of strings
// ---------------------------------------------------------------------------

/// Lexicographic order of character sequences by code point, the order of `String`.
pub open spec fn str_le(a: Seq<char>, b: Seq<char>) -> bool
    decreases a.len(),
{
    if a.len() == 0 {
        true
    } else if b.len() == 0 {
        false
    } else if a[0] != b[0] {
        a[0] < b[0]
    } else {
        str_le(a.drop_first(), b.drop_first())
    }
}

/// `str_le` as a relation.
pub open spec fn str_leq() -> spec_fn(Seq<char>, Seq<char>) -> bool {
    |a: Seq<char>, b: Seq<char>| str_le(a, b)
}

/// The characters of each string.
pub open spec fn views(s: Seq<String>) -> Seq<Seq<char>> {
    s.map_values(|x: String| x@)
}

/// `s` in `String` order.
pub open spec fn sorted_views(s: Seq<Seq<char>>) -> Seq<Seq<char>> {
    s.sort_by(str_leq())
}

proof fn lemma_str_le_reflexive(a: Seq<char>)
    ensures
        str_le(a, a),
    decreases a.len(),
{
    if a.len() > 0 {
        lemma_str_le_reflexive(a.drop_first());
    }
}

proof fn lemma_str_le_antisymmetric(a: Seq<char>, b: Seq<char>)
    requires
        str_le(a, b),
        str_le(b, a),
    ensures
        a == b,
    decreases a.len(),
{
    if a.len() == 0 {
        assert(b.len() == 0);
        assert(a =~= b);
    } else {
        assert(b.len() > 0);
        assert(a[0] == b[0]);
        lemma_str_le_antisymmetric(a.drop_first(), b.drop_first());
        assert(a =~= seq![a[0]] + a.drop_first());
        assert(b =~= seq![b[0]] + b.drop_first());
    }
}

proof fn lemma_str_le_transitive(a: Seq<char>, b: Seq<char>, c: Seq<char>)
    requires
        str_le(a, b),
        str_le(b, c),
    ensures
        str_le(a, c),
    decreases a.len(),
{
    if a.len() > 0 && b.len() > 0 && c.len() > 0 && a[0] == b[0] && b[0] == c[0] {
        lemma_str_le_transitive(a.drop_first(), b.drop_first(), c.drop_first());
    }
}

proof fn lemma_str_le_total(a: Seq<char>, b: Seq<char>)
    ensures
        str_le(a, b) || str_le(b, a),
    decreases a.len(),
{
    if a.len() > 0 && b.len() > 0 && a[0] == b[0] {
        lemma_str_le_total(a.drop_first(), b.drop_first());
    }
}

/// The order of strings is a total order.
pub proof fn lemma_str_leq_total_ordering()
    ensures
        total_ordering(str_leq()),
{
    let r = str_leq();
    assert forall|x: Seq<char>| #[trigger] r(x, x) by {
        lemma_str_le_reflexive(x);
    }
    assert forall|x: Seq<char>, y: Seq<char>| #[trigger] r(x, y) && #[trigger] r(y, x) implies x
        == y by {
        lemma_str_le_antisymmetric(x, y);
    }
    assert forall|x: Seq<char>, y: Seq<char>, z: Seq<char>| #[trigger] r(x, y) && #[trigger] r(
        y,
        z,
    ) implies r(x, z) by {
        lemma_str_le_transitive(x, y, z);
    }
    assert forall|x: Seq<char>, y: Seq<char>| #[trigger] r(x, y) || #[trigger] r(y, x) by {
        lemma_str_le_total(x, y);
    }
}

/// Whether `a` comes before or equals `b` in `String` order.
pub fn string_le(a: &str, b: &str) -> (r: bool)
    ensures
        r == str_le(a@, b@),
{
    let x = to_chars(a);
    let y = to_chars(b);
    let mut i: usize = 0;
    assert(a@.skip(0) =~= a@);
    assert(b@.skip(0) =~= b@);
    while i < x.len() && i < y.len() && x[i] == y[i]
        invariant
            i <= x.len(),
            i <= y.len(),
            x@ == a@,
            y@ == b@,
            str_le(a@, b@) == str_le(a@.skip(i as int), b@.skip(i as int)),
        decreases x.len() - i,
    {
        assert(a@.skip(i as int).drop_first() =~= a@.skip(i + 1));
        assert(b@.skip(i as int).drop_first() =~= b@.skip(i + 1));
        i = i + 1;
    }
    if i == x.len() {
        true
    } else if i == y.len() {
        false
    } else {
        x[i] < y[i]
    }
}

fn clone_strings(v: &Vec<String>) -> (r: Vec<String>)
    ensures
        views(r@) == views(v@),
{
    let mut r: Vec<String> = Vec::new();
    for i in 0..v.len()
        invariant
            r@.len() == i,
            forall|j: int| 0 <= j < i ==> (#[trigger] r@[j])@ == v@[j]@,
    {
        r.push(v[i].clone());
    }
    assert(views(r@) =~= views(v@));
    r
}

/// The strings of `v` in `String` order.
pub fn sort_strings(v: Vec<String>) -> (r: Vec<String>)
    ensures
        views(r@) == sorted_views(views(v@)),
        sorted_by(views(r@), str_leq()),
        views(r@).to_multiset() == views(v@).to_multiset(),
{
    proof {
        lemma_str_leq_total_ordering();
    }
    let ghost input = views(v@);
    let mut out: Vec<String> = Vec::new();
    let len = v.len();
    let mut k: usize = 0;
    while k < len
        invariant
            k <= len == v.len(),
            views(v@) == input,
            sorted_by(views(out@), str_leq()),
            views(out@).to_multiset() == input.take(k as int).to_multiset(),
            total_ordering(str_leq()),
        decreases len - k,
    {
        let x = v[k].clone();
        let n = out.len();
        let mut p: usize = 0;
        while p < n && string_le(out[p as usize].as_str(), x.as_str())
            invariant
                p <= n == out.len(),
                forall|j: int| 0 <= j < p ==> str_le(#[trigger] out@[j]@, x@),
            decreases n - p,
        {
            p = p + 1;
        }
        let ghost before = views(out@);
        out.insert(p, x);
        proof {
            assert(views(out@) =~= before.insert(p as int, x@));
            let s = views(out@);
            assert forall|i: int, j: int| 0 <= i < j < s.len() implies #[trigger] str_leq()(
                s[i],
                s[j],
            ) by {
                if j < p {
                } else if i < p && j == p {
                } else if i < p && j > p {
                    assert(str_le(before[i], x@));
                    if p < n {
                        lemma_str_le_total(x@, before[p as int]);
                        assert(str_le(x@, before[p as int]));
                        assert(str_leq()(before[p as int], before[j - 1]));
                        lemma_str_le_transitive(x@, before[p as int], before[j - 1]);
                    }
                    lemma_str_le_transitive(before[i], x@, before[j - 1]);
                } else if i == p {
                    lemma_str_le_total(x@, before[p as int]);
                    if j - 1 > p {
                        assert(str_leq()(before[p as int], before[j - 1]));
                        lemma_str_le_transitive(x@, before[p as int], before[j - 1]);
                    }
                } else {
                    assert(str_leq()(before[i - 1], before[j - 1]));
                }
            }
            assert(input.take(k + 1) =~= input.take(k as int).push(x@));
        }
        k = k + 1;
    }
    proof {
        assert(input.take(len as int) =~= input);
        input.lemma_sort_by_ensures(str_leq());
        vstd::seq_lib::lemma_sorted_unique(views(out@), sorted_views(input), str_leq());
    }
    out
}

/// Whether two lists hold the same addon ids, as many times each.
pub fn same_addon_set(a: &Vec<String>, b: &Vec<String>) -> (r: bool)
    ensures
        r == (views(a@).to_multiset() == views(b@).to_multiset()),
{
    if a.len() != b.len() {
        proof {
            views(a@).to_multiset_ensures();
            views(b@).to_multiset_ensures();
        }
        return false;
    }
    let x = sort_strings(clone_strings(a));
    let y = sort_strings(clone_strings(b));
    proof {
        views(x@).to_multiset_ensures();
        views(y@).to_multiset_ensures();
        views(a@).to_multiset_ensures();
        views(b@).to_multiset_ensures();
        assert(views(x@).len() == x@.len());
        assert(views(y@).len() == y@.len());
    }
    let n = x.len();
    let mut i: usize = 0;
    while i < n
        invariant
            i <= n == x.len() == y.len(),
            forall|j: int| 0 <= j < i ==> (#[trigger] x@[j])@ == y@[j]@,
            sorted_by(views(x@), str_leq()),
            sorted_by(views(y@), str_leq()),
            views(x@).to_multiset() == views(a@).to_multiset(),
            views(y@).to_multiset() == views(b@).to_multiset(),
        decreases n - i,
    {
        if !str_eq(x[i].as_str(), y[i].as_str()) {
            proof {
                lemma_str_leq_total_ordering();
                if views(a@).to_multiset() == views(b@).to_multiset() {
                    vstd::seq_lib::lemma_sorted_unique(views(x@), views(y@), str_leq());
                    assert(views(x@)[i as int] == views(y@)[i as int]);
                }
            }
            return false;
        }
        i = i + 1;
    }
    assert(views(x@) =~= views(y@));
    true
}

// ---------------------------------------------------------------------------
// Toggle
// ---------------------------------------------------------------------------

/// `s` without any occurrence of `x`, in order.
pub open spec fn remove_all(s: Seq<Seq<char>>, x: Seq<char>) -> Seq<Seq<char>>
    decreases s.len(),
{
    if s.len() == 0 {
        s
    } else if s.last() == x {
        remove_all(s.drop_last(), x)
    } else {
        remove_all(s.drop_last(), x).push(s.last())
    }
}

/// How the list of enabled addons changes.
#[derive(Debug)]
pub enum AddonChange {
    /// Nothing to write: every addon is enabled already.
    AlreadyEnabled,
    /// Remove the list: every addon is enabled.
    ClearList,
    /// Write this list of enabled addons.
    SetList(Vec<String>),
}

/// What an `AddonChange` holds.
pub enum AddonChangeView {
    AlreadyEnabled,
    ClearList,
    SetList(Seq<Seq<char>>),
}

impl View for AddonChange {
    type V = AddonChangeView;

    open spec fn view(&self) -> AddonChangeView {
        match self {
            AddonChange::AlreadyEnabled => AddonChangeView::AlreadyEnabled,
            AddonChange::ClearList => AddonChangeView::ClearList,
            AddonChange::SetList(v) => AddonChangeView::SetList(views(v@)),
        }
    }
}

/// The characters of each listed string, when there is a list.
pub open spec fn opt_views(o: Option<Vec<String>>) -> Option<Seq<Seq<char>>> {
    match o {
        Some(v) => Some(views(v@)),
        None => None,
    }
}

/// The change that enabling or disabling addon `id` makes to the configured
/// list `current` of enabled addons (no list: all are enabled), given the ids
/// of all addons.
///
/// Enabling: with no list, nothing changes; otherwise `id` joins the list,
/// which is removed when it then holds all addons and is written in order when
/// it does not. Disabling: `id` leaves the list (with no list, the ordered list
/// of all addons), every other entry kept in order.
pub open spec fn toggle_spec(
    current: Option<Seq<Seq<char>>>,
    all: Seq<Seq<char>>,
    id: Seq<char>,
    enabled: bool,
) -> AddonChangeView {
    if enabled {
        match current {
            None => AddonChangeView::AlreadyEnabled,
            Some(list) => {
                let v = if list.contains(id) {
                    list
                } else {
                    list.push(id)
                };
                if v.to_multiset() == all.to_multiset() {
                    AddonChangeView::ClearList
                } else {
                    AddonChangeView::SetList(sorted_views(v))
                }
            },
        }
    } else {
        let base = match current {
            None => sorted_views(all),
            Some(list) => list,
        };
        AddonChangeView::SetList(remove_all(base, id))
    }
}

fn contains_string(v: &Vec<String>, s: &str) -> (r: bool)
    ensures
        r == views(v@).contains(s@),
{
    let n = v.len();
    let mut i: usize = 0;
    while i < n
        invariant
            i <= n == v.len(),
            forall|j: int| 0 <= j < i ==> (#[trigger] v@[j])@ != s@,
        decreases n - i,
    {
        if str_eq(v[i].as_str(), s) {
            assert(views(v@)[i as int] == s@);
            return true;
        }
        i = i + 1;
    }
    proof {
        if views(v@).contains(s@) {
            let k = choose|k: int| 0 <= k < views(v@).len() && views(v@)[k] == s@;
            assert(v@[k]@ == s@);
        }
    }
    false
}

fn remove_string(v: &Vec<String>, s: &str) -> (r: Vec<String>)
    ensures
        views(r@) == remove_all(views(v@), s@),
{
    let mut r: Vec<String> = Vec::new();
    let n = v.len();
    let mut i: usize = 0;
    assert(views(v@).take(0) =~= Seq::<Seq<char>>::empty());
    while i < n
        invariant
            i <= n == v.len(),
            views(r@) == remove_all(views(v@).take(i as int), s@),
        decreases n - i,
    {
        let ghost t = views(v@).take(i + 1);
        assert(t.drop_last() =~= views(v@).take(i as int));
        if !str_eq(v[i].as_str(), s) {
            r.push(v[i].clone());
            assert(views(r@) =~= remove_all(views(v@).take(i as int), s@).push(v@[i as int]@));
        }
        i = i + 1;
    }
    assert(views(v@).take(n as int) =~= views(v@));
    r
}

/// The change that enabling or disabling addon `id` makes to the list of
/// enabled addons (see `toggle_spec`).
pub fn plan_addon_toggle(
    current: &Option<Vec<String>>,
    all_ids: &Vec<String>,
    id: &str,
    enabled: bool,
) -> (r: AddonChange)
    ensures
        r@ == toggle_spec(opt_views(*current), views(all_ids@), id@, enabled),
{
    let all_sorted = sort_strings(clone_strings(all_ids));
    if enabled {
        match current {
            None => AddonChange::AlreadyEnabled,
            Some(list) => {
                let mut v = clone_strings(list);
                if !contains_string(&v, id) {
                    v.push(id.to_owned());
                    assert(views(v@) =~= views(list@).push(id@));
                }
                let v = sort_strings(v);
                if same_addon_set(&v, &all_sorted) {
                    AddonChange::ClearList
                } else {
                    AddonChange::SetList(v)
                }
            },
        }
    } else {
        let base = match current {
            None => all_sorted,
            Some(list) => clone_strings(list),
        };
        AddonChange::SetList(remove_string(&base, id))
    }
}

proof fn lemma_remove_all(s: Seq<Seq<char>>, x: Seq<char>)
    ensures
        !remove_all(s, x).contains(x),
    decreases s.len(),
{
    if s.len() > 0 {
        lemma_remove_all(s.drop_last(), x);
        let r = remove_all(s.drop_last(), x);
        if s.last() != x {
            assert(r.push(s.last()).contains(x) ==> r.contains(x)) by {
                if r.push(s.last()).contains(x) {
                    let k = choose|k: int|
                        0 <= k < r.push(s.last()).len() && r.push(s.last())[k] == x;
                    assert(r[k] == x);
                }
            }
        }
    }
}

/// After enabling an addon, it is enabled: either nothing changes because no
/// list restricts the addons, or the list is removed, or the new list holds it.
pub proof fn lemma_enable_enables(
    current: Option<Seq<Seq<char>>>,
    all: Seq<Seq<char>>,
    id: Seq<char>,
)
    ensures
        toggle_spec(current, all, id, true) is AlreadyEnabled <==> current is None,
        toggle_spec(current, all, id, true) matches AddonChangeView::SetList(r) ==> r.contains(id),
{
    if let Some(list) = current {
        let v = if list.contains(id) {
            list
        } else {
            list.push(id)
        };
        lemma_str_leq_total_ordering();
        v.lemma_sort_by_ensures(str_leq());
        assert(v.contains(id)) by {
            if !list.contains(id) {
                assert(v[list.len() as int] == id);
            }
        }
        v.to_multiset_ensures();
        sorted_views(v).to_multiset_ensures();
        assert(v.to_multiset().count(id) > 0);
        assert(sorted_views(v).to_multiset().count(id) > 0);
        assert(sorted_views(v).contains(id));
    }
}

/// Enabling an addon that a list restricts adds its id to that list at most
/// once: the ids to keep are those of the list, with `id` added only where it
/// is not listed yet. The list is removed exactly when those ids are the ids
/// of all addons; otherwise it is written with those ids, in order.
pub proof fn lemma_enable_adds_once(list: Seq<Seq<char>>, all: Seq<Seq<char>>, id: Seq<char>)
    ensures
        ({
            let kept = if list.contains(id) {
                list.to_multiset()
            } else {
                list.to_multiset().insert(id)
            };
            match toggle_spec(Some(list), all, id, true) {
                AddonChangeView::AlreadyEnabled => false,
                AddonChangeView::ClearList => kept == all.to_multiset(),
                AddonChangeView::SetList(l) => {
                    &&& kept != all.to_multiset()
                    &&& l.to_multiset() == kept
                    &&& forall|i: int, j: int| 0 <= i < j < l.len() ==> str_le(#[trigger] l[i], #[trigger] l[j])
                },
            }
        }),
{
    let v = if list.contains(id) {
        list
    } else {
        list.push(id)
    };
    lemma_str_leq_total_ordering();
    v.lemma_sort_by_ensures(str_leq());
    list.to_multiset_ensures();
    let kept = if list.contains(id) {
        list.to_multiset()
    } else {
        list.to_multiset().insert(id)
    };
    assert(v.to_multiset() == kept);
    let l = sorted_views(v);
    assert forall|i: int, j: int| 0 <= i < j < l.len() implies str_le(#[trigger] l[i], #[trigger] l[j]) by {
        assert(str_leq()(l[i], l[j]));
    }
}

/// After disabling an addon, the list is written and does not hold it.
pub proof fn lemma_disable_disables(
    current: Option<Seq<Seq<char>>>,
    all: Seq<Seq<char>>,
    id: Seq<char>,
)
    ensures
        toggle_spec(current, all, id, false) matches AddonChangeView::SetList(r) && !r.contains(id),
{
    let base = match current {
        None => sorted_views(all),
        Some(list) => list,
    };
    lemma_remove_all(base, id);
}

proof fn lemma_remove_all_filter(s: Seq<Seq<char>>, x: Seq<char>)
    ensures
        remove_all(s, x) == s.filter(|y: Seq<char>| y != x),
    decreases s.len(),
{
    reveal(Seq::filter);
    if s.len() > 0 {
        lemma_remove_all_filter(s.drop_last(), x);
    }
}

/// Disabling an addon writes the list without it and keeps every other id
/// in its place: the configured list where there is one, else the ids of all
/// addons in order, with each occurrence of `id` taken out.
pub proof fn lemma_disable_keeps_others(
    current: Option<Seq<Seq<char>>>,
    all: Seq<Seq<char>>,
    id: Seq<char>,
)
    ensures
        toggle_spec(current, all, id, false) == AddonChangeView::SetList(
            match current {
                Some(list) => list,
                None => all.sort_by(str_leq()),
            }.filter(|y: Seq<char>| y != id),
        ),
{
    let base = match current {
        None => sorted_views(all),
        Some(list) => list,
    };
    lemma_remove_all_filter(base, id);
}

/// A request to enable or disable an addon.
#[derive(Clone, Debug)]
pub struct ToggleAddonPayload {
    id: String,
    enabled: bool,
}

impl ToggleAddonPayload {
    /// The addon id of the request.
    pub closed spec fn addon_id(self) -> Seq<char> {
        self.id@
    }

    /// Whether the request enables the addon.
    pub closed spec fn enables(self) -> bool {
        self.enabled
    }

    /// A request to enable (or disable) addon `id`.
    pub fn new(id: String, enabled: bool) -> (r: ToggleAddonPayload)
        ensures
            r.addon_id() == id@,
            r.enables() == enabled,
    {
        ToggleAddonPayload { id, enabled }
    }

    /// The addon id of the request.
    pub fn id(&self) -> (r: &str)
        ensures
            r@ == self.addon_id(),
    {
        self.id.as_str()
    }

    /// Whether the request enables the addon.
    pub fn enabled(&self) -> (r: bool)
        ensures
            r == self.enables(),
    {
        self.enabled
    }

    /// The change this request makes to the list of enabled addons.
    pub fn plan(&self, current: &Option<Vec<String>>, all_ids: &Vec<String>) -> (r: AddonChange)
        ensures
            r@ == toggle_spec(opt_views(*current), views(all_ids@), self.addon_id(), self.enables()),
    {
        plan_addon_toggle(current, all_ids, self.id.as_str(), self.enabled)
    }
}

/// Sorting an ordered list changes nothing.
pub proof fn lemma_sort_idempotent(s: Seq<Seq<char>>)
    ensures
        sorted_views(sorted_views(s)) == sorted_views(s),
{
    lemma_str_leq_total_ordering();
    s.lemma_sort_by_ensures(str_leq());
    sorted_views(s).lemma_sort_by_ensures(str_leq());
    vstd::seq_lib::lemma_sorted_unique(sorted_views(sorted_views(s)), sorted_views(s), str_leq());
}

// ---------------------------------------------------------------------------
// The configuration file
// ---------------------------------------------------------------------------

/// Whether `text` is a TOML document, as `toml_edit` parses one.
pub uninterp spec fn toml_parses(text: Seq<char>) -> bool;

/// Whether the TOML document `text` has a `proxy` entry that is a table
/// (a `[proxy]` section, not an inline table or another value).
pub uninterp spec fn toml_proxy_is_table(text: Seq<char>) -> bool;

/// The TOML document `text`, as `toml_edit` prints it back after its `proxy`
/// entry is set to a new empty table.
pub uninterp spec fn toml_with_empty_proxy(text: Seq<char>) -> Seq<char>;

/// The TOML document `text`, as `toml_edit` prints it back after the `addons`
/// key of its `proxy` table is removed (no edit where `proxy` is no table).
pub uninterp spec fn toml_without_proxy_addons(text: Seq<char>) -> Seq<char>;

/// The TOML document `text`, as `toml_edit` prints it back after the `addons`
/// key of its `proxy` table is set to the array of `ids` (no edit where
/// `proxy` is no table).
pub uninterp spec fn toml_with_proxy_addon_list(text: Seq<char>, ids: Seq<Seq<char>>) -> Seq<char>;

/// `toml_edit`: parses `text` as a `DocumentMut` and tells whether its `proxy`
/// entry is a table. On failure it gives the parser's message, whose wording
/// is not stated.
#[verifier::external_body]
fn proxy_is_table(text: &str) -> (r: Result<bool, String>)
    ensures
        r is Ok <==> toml_parses(text@),
        r matches Ok(b) ==> b == toml_proxy_is_table(text@),
{
    let doc = text.parse::<toml_edit::DocumentMut>().map_err(|e| e.to_string())?;
    Ok(doc.get("proxy").is_some_and(toml_edit::Item::is_table))
}

/// `toml_edit`: parses `text` as a `DocumentMut`, sets its `proxy` entry to a
/// new empty table and prints the document.
#[verifier::external_body]
fn with_empty_proxy_table(text: &str) -> (r: Result<String, String>)
    ensures
        r is Ok <==> toml_parses(text@),
        r matches Ok(s) ==> s@ == toml_with_empty_proxy(text@),
{
    let mut doc = text.parse::<toml_edit::DocumentMut>().map_err(|e| e.to_string())?;
    doc["proxy"] = toml_edit::Item::Table(toml_edit::Table::new());
    Ok(doc.to_string())
}

/// `toml_edit`: parses `text` as a `DocumentMut`, removes the `addons` key of
/// its `proxy` table (`Table::remove`) and prints the document.
#[verifier::external_body]
fn without_proxy_addons(text: &str) -> (r: Result<String, String>)
    ensures
        r is Ok <==> toml_parses(text@),
        r matches Ok(s) ==> s@ == toml_without_proxy_addons(text@),
{
    let mut doc = text.parse::<toml_edit::DocumentMut>().map_err(|e| e.to_string())?;
    if let Some(toml_edit::Item::Table(table)) = doc.get_mut("proxy") {
        table.remove("addons");
    }
    Ok(doc.to_string())
}

/// `toml_edit`: parses `text` as a `DocumentMut`, sets the `addons` key of its
/// `proxy` table to an array of the strings `ids` and prints the document.
#[verifier::external_body]
fn with_proxy_addon_list(text: &str, ids: &Vec<String>) -> (r: Result<String, String>)
    ensures
        r is Ok <==> toml_parses(text@),
        r matches Ok(s) ==> s@ == toml_with_proxy_addon_list(text@, views(ids@)),
{
    let mut doc = text.parse::<toml_edit::DocumentMut>().map_err(|e| e.to_string())?;
    if let Some(toml_edit::Item::Table(table)) = doc.get_mut("proxy") {
        table["addons"] = toml_edit::value(ids.iter().collect::<toml_edit::Array>());
    }
    Ok(doc.to_string())
}

/// The answer to an addon request.
#[derive(Debug)]
pub struct ToggleReply {
    /// HTTP status
    pub status: u16,
    /// Whether the body is JSON (`success`, `message` and, on success,
    /// `requires_restart`) rather than the message as plain text
    pub json: bool,
    pub success: bool,
    pub requires_restart: bool,
    pub message: String,
    /// The configuration text to validate and write, when there is one
    pub write: Option<String>,
}

/// Whether `m` starts with `prefix`.
pub open spec fn has_prefix(m: Seq<char>, prefix: Seq<char>) -> bool {
    m.len() >= prefix.len() && m.subrange(0, prefix.len() as int) == prefix
}

/// A JSON error reply.
pub open spec fn is_json_error(r: ToggleReply, status: u16) -> bool {
    r.status == status && r.json && !r.success && !r.requires_restart && r.write is None
}

fn json_error(status: u16, message: String) -> (r: ToggleReply)
    ensures
        is_json_error(r, status),
        r.message == message,
{
    ToggleReply { status, json: true, success: false, requires_restart: false, message, write: None }
}

/// The 403 answer to a user who may not perform an addon request.
fn permission_denied() -> (r: ToggleReply)
    ensures
        r.status == 403 && !r.json && !r.success && r.write is None,
        r.message@ == "Permission denied"@,
{
    ToggleReply {
        status: 403,
        json: false,
        success: false,
        requires_restart: false,
        message: "Permission denied".to_owned(),
        write: None,
    }
}

/// Whether a user may read the addon pages: 403 unless it holds `system:read`
/// (or is a superuser).
pub fn addon_read_gate(is_superuser: bool, perms: &Vec<String>) -> (r: Option<ToggleReply>)
    ensures
        r is Some <==> !granted(is_superuser, views(perms@), "system"@, "read"@),
        r matches Some(x) ==> x.status == 403 && !x.json && x.message@ == "Permission denied"@,
{
    if crate::console::permissions::has_permission(is_superuser, perms, "system", "read") {
        None
    } else {
        Some(permission_denied())
    }
}

/// What stops a toggle request before the configuration file is read, in
/// order: 403 unless the user holds `system:write` (or is a superuser), 503
/// without application state, 400 without a known configuration path.
pub fn toggle_addon_gate(
    is_superuser: bool,
    perms: &Vec<String>,
    has_app_state: bool,
    has_config_path: bool,
) -> (r: Option<ToggleReply>)
    ensures
        !granted(is_superuser, views(perms@), "system"@, "write"@) ==> (r matches Some(x)
            && x.status == 403 && !x.json && !x.success && x.write is None && x.message@
            == "Permission denied"@),
        granted(is_superuser, views(perms@), "system"@, "write"@) && !has_app_state ==> (
        r matches Some(x) && is_json_error(x, 503) && x.message@
            == "Application state is unavailable."@),
        granted(is_superuser, views(perms@), "system"@, "write"@) && has_app_state
            && !has_config_path ==> (r matches Some(x) && is_json_error(x, 400) && x.message@
            == "Configuration file path is unknown. Start the service with --conf to enable editing."@),
        granted(is_superuser, views(perms@), "system"@, "write"@) && has_app_state
            && has_config_path ==> r is None,
{
    if !crate::console::permissions::has_permission(is_superuser, perms, "system", "write") {
        return Some(permission_denied());
    }
    if !has_app_state {
        return Some(json_error(503, "Application state is unavailable.".to_owned()));
    }
    if !has_config_path {
        return Some(
            json_error(
                400,
                "Configuration file path is unknown. Start the service with --conf to enable editing.".to_owned(),
            ),
        );
    }
    None
}

/// Message prefix when the file is not TOML.
pub open spec fn not_toml_prefix() -> Seq<char> {
    "Configuration file is not valid TOML: "@
}

/// Message prefix when the file is not a valid configuration.
pub open spec fn invalid_config_prefix() -> Seq<char> {
    "Configuration validation failed: "@
}

/// Whether `r` answers a successful toggle that writes `text`.
pub open spec fn writes(r: ToggleReply, text: Seq<char>) -> bool {
    &&& r.status == 200 && r.json && r.success && r.requires_restart
    &&& r.message@ == "Addon state updated. Restart RustPBX to apply changes."@
    &&& r.write matches Some(w) && w@ == text
}

/// Whether `r` is the 422 answer for text that is not TOML.
pub open spec fn is_not_toml(r: ToggleReply) -> bool {
    is_json_error(r, 422) && has_prefix(r.message@, not_toml_prefix())
}

/// The configuration text with a `proxy` table: `text` itself where its
/// `proxy` entry is a table, otherwise `text` with that entry replaced by a
/// new empty table.
pub open spec fn with_proxy_table(text: Seq<char>) -> Seq<char> {
    if toml_proxy_is_table(text) {
        text
    } else {
        toml_with_empty_proxy(text)
    }
}

/// Whether `r` answers a toggle whose edit of the text `base` gives `edited`:
/// the edited text to write where `base` is TOML, the 422 otherwise.
pub open spec fn writes_edit(r: ToggleReply, base: Seq<char>, edited: Seq<char>) -> bool {
    if toml_parses(base) {
        writes(r, edited)
    } else {
        is_not_toml(r)
    }
}

/// The 422 answer for text that is not TOML, with the parser's message.
fn not_toml(e: String) -> (r: ToggleReply)
    ensures
        is_not_toml(r),
{
    proof {
        reveal_strlit("Configuration file is not valid TOML: ");
    }
    let m = concat("Configuration file is not valid TOML: ", e.as_str());
    assert(m@.subrange(0, not_toml_prefix().len() as int) =~= not_toml_prefix());
    json_error(422, m)
}

/// The answer to a toggle request for the configuration file `text`, given
/// what parsing it as a configuration gave (its `proxy.addons`, or the error
/// message) and the ids of all addons: 422 when the file is not TOML, 422 when
/// it is not a valid configuration; otherwise, by `toggle_spec`, 200 with no
/// write when the addon is enabled already, or 200 and the text to write:
/// the `proxy` entry made a table where it is not one, and in that table the
/// `addons` list removed or set.
pub fn toggle_addon_document(
    text: &str,
    parsed: &Result<Option<Vec<String>>, String>,
    all_ids: &Vec<String>,
    payload: &ToggleAddonPayload,
) -> (r: ToggleReply)
    ensures
        !toml_parses(text@) ==> is_not_toml(r),
        toml_parses(text@) ==> match parsed {
            Err(e) => is_json_error(r, 422) && r.message@ == invalid_config_prefix() + e@,
            Ok(current) => match toggle_spec(
                opt_views(*current),
                views(all_ids@),
                payload.addon_id(),
                payload.enables(),
            ) {
                AddonChangeView::AlreadyEnabled => {
                    &&& r.status == 200 && r.json && r.success && !r.requires_restart
                    &&& r.message@ == "Addon is already enabled."@
                    &&& r.write is None
                },
                AddonChangeView::ClearList => writes_edit(
                    r,
                    with_proxy_table(text@),
                    toml_without_proxy_addons(with_proxy_table(text@)),
                ),
                AddonChangeView::SetList(l) => writes_edit(
                    r,
                    with_proxy_table(text@),
                    toml_with_proxy_addon_list(with_proxy_table(text@), l),
                ),
            },
        },
{
    let is_table = match proxy_is_table(text) {
        Err(e) => {
            return not_toml(e);
        },
        Ok(b) => b,
    };
    let current = match parsed {
        Err(e) => {
            return json_error(422, concat("Configuration validation failed: ", e.as_str()));
        },
        Ok(c) => c,
    };
    let change = payload.plan(current, all_ids);
    if let AddonChange::AlreadyEnabled = change {
        return ToggleReply {
            status: 200,
            json: true,
            success: true,
            requires_restart: false,
            message: "Addon is already enabled.".to_owned(),
            write: None,
        };
    }
    let base = if is_table {
        text.to_owned()
    } else {
        match with_empty_proxy_table(text) {
            Ok(s) => s,
            Err(e) => {
                return not_toml(e);
            },
        }
    };
    assert(base@ == with_proxy_table(text@));
    let edited = match &change {
        AddonChange::SetList(ids) => with_proxy_addon_list(base.as_str(), ids),
        _ => without_proxy_addons(base.as_str()),
    };
    match edited {
        Ok(new_text) => ToggleReply {
            status: 200,
            json: true,
            success: true,
            requires_restart: true,
            message: "Addon state updated. Restart RustPBX to apply changes.".to_owned(),
            write: Some(new_text),
        },
        Err(e) => not_toml(e),
    }
}

/// Whether an addon is shown enabled, and whether a restart is needed: it is
/// shown as the file on disk says, and a restart is needed when that differs
/// from the running configuration.
pub fn addon_status(enabled_on_disk: bool, enabled_in_memory: bool) -> (r: (bool, bool))
    ensures
        r == (enabled_on_disk, enabled_on_disk != enabled_in_memory),
{
    (enabled_on_disk, enabled_on_disk != enabled_in_memory)
}

/// Whether addon `id` is enabled by the configured list `current`: with no
/// list every addon is, otherwise those listed.
pub fn addon_enabled(current: &Option<Vec<String>>, id: &str) -> (r: bool)
    ensures
        r == match opt_views(*current) {
            None => true,
            Some(l) => l.contains(id@),
        },
{
    match current {
        None => true,
        Some(list) => contains_string(list, id),
    }
}

/// Index of the first addon with id `id`; the detail page answers 404 without one.
pub fn find_addon(ids: &Vec<String>, id: &str) -> (r: Option<usize>)
    ensures
        r matches Some(k) ==> k < ids@.len() && ids@[k as int]@ == id@ && forall|j: int|
            0 <= j < k ==> ids@[j]@ != id@,
        r is None ==> !views(ids@).contains(id@),
{
    let n = ids.len();
    let mut i: usize = 0;
    while i < n
        invariant
            i <= n == ids.len(),
            forall|j: int| 0 <= j < i ==> (#[trigger] ids@[j])@ != id@,
        decreases n - i,
    {
        if str_eq(ids[i].as_str(), id) {
            return Some(i);
        }
        i = i + 1;
    }
    proof {
        if views(ids@).contains(id@) {
            let k = choose|k: int| 0 <= k < views(ids@).len() && views(ids@)[k] == id@;
            assert(ids@[k]@ == id@);
        }
    }
    None
}

} // verus!
