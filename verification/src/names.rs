//! Names that do not collide: which name a file gets in its category
//! folder when the wanted one is taken, on disk or earlier in the batch.
//!
//! Whether a path exists only the caller can find out. So a name is
//! resolved in steps: `generate_unique_filename` either settles the name or
//! asks for a probe, and `resolve_probe` takes the answer and settles the
//! name or asks again.

use vstd::prelude::*;
use crate::numbers::{decimal, lemma_decimal_injective, lemma_decimal_nonempty, push_decimal};
use crate::paths::{
    extension, extension_of_path, file_name, file_stem, join, lemma_last_index_of, path_file_name,
    path_join, stem_of_path,
};
use crate::text::same_text;
use vstd::string::StringExecFns;

verus! {

/// A category and a wanted file name.
pub type NameKey = (Seq<char>, Seq<char>);

/// The part of a wanted name that goes before the number.
pub open spec fn stem_spec(wanted: Seq<char>) -> Seq<char> {
    match stem_of_path(wanted) {
        Some(stem) => stem,
        None => wanted,
    }
}

/// The extension that is put back behind the number; empty if the wanted
/// name has none.
pub open spec fn ext_spec(wanted: Seq<char>) -> Seq<char> {
    match extension_of_path(wanted) {
        Some(ext) => ext,
        None => Seq::empty(),
    }
}

/// The wanted name with the number `k` before its extension: `stem_k.ext`,
/// or `stem_k` without a trailing dot where there is no extension.
pub open spec fn numbered_name(wanted: Seq<char>, k: nat) -> Seq<char> {
    let base = stem_spec(wanted) + seq!['_'] + decimal(k);
    if ext_spec(wanted).len() == 0 {
        base
    } else {
        base + seq!['.'] + ext_spec(wanted)
    }
}

/// The name tried at number `k`: the wanted name itself at 0, and the
/// numbered one after that.
pub open spec fn candidate(wanted: Seq<char>, k: nat) -> Seq<char> {
    if k == 0 {
        wanted
    } else {
        numbered_name(wanted, k)
    }
}

/// Whether a wanted name names no directory: it is its own final path
/// component, or has none.
pub open spec fn own_component(wanted: Seq<char>) -> bool {
    match path_file_name(wanted) {
        Some(name) => name == wanted,
        None => true,
    }
}

/// Whether a wanted name names no directory.
pub fn is_own_component(name: &str) -> (r: bool)
    ensures
        r == own_component(name@),
{
    match file_name(name) {
        Some(last) => same_text(last.as_str(), name),
        None => true,
    }
}

/// Numbered names of one wanted name differ where their numbers differ.
pub proof fn lemma_numbered_injective(wanted: Seq<char>, j: nat, k: nat)
    requires
        numbered_name(wanted, j) == numbered_name(wanted, k),
    ensures
        j == k,
{
    let head = stem_spec(wanted) + seq!['_'];
    let tail = if ext_spec(wanted).len() == 0 {
        Seq::<char>::empty()
    } else {
        seq!['.'] + ext_spec(wanted)
    };
    let a = numbered_name(wanted, j);
    let b = numbered_name(wanted, k);
    assert(a == head + decimal(j) + tail);
    assert(b == head + decimal(k) + tail);
    assert(a.len() == head.len() + decimal(j).len() + tail.len());
    assert(b.len() == head.len() + decimal(k).len() + tail.len());
    let from = head.len() as int;
    let to = from + decimal(j).len();
    assert(a.subrange(from, to) == decimal(j));
    assert(b.subrange(from, to) == decimal(k));
    lemma_decimal_injective(j, k);
}

/// A numbered name is longer than the final component it was made from, so
/// it differs from a wanted name that names no directory.
pub proof fn lemma_numbered_differs(wanted: Seq<char>, k: nat)
    requires
        own_component(wanted),
    ensures
        numbered_name(wanted, k) != wanted,
{
    lemma_decimal_nonempty(k);
    lemma_last_index_of(wanted, '.');
    assert(numbered_name(wanted, k).len() > wanted.len());
}

/// One entry of the record of names given out.
pub struct NameCount {
    category: String,
    name: String,
    count: u32,
}

/// The record of one batch: for each category and wanted name the last
/// number given out for it.
pub struct UsedNames {
    entries: Vec<NameCount>,
}

/// The record as a map; a later entry goes before an earlier one.
pub closed spec fn entries_map(entries: Seq<NameCount>) -> Map<NameKey, u32>
    decreases entries.len(),
{
    if entries.len() == 0 {
        Map::empty()
    } else {
        let last = entries.last();
        entries_map(entries.drop_last()).insert((last.category@, last.name@), last.count)
    }
}

proof fn lemma_entries_update(entries: Seq<NameCount>, at: int, entry: NameCount)
    requires
        0 <= at < entries.len(),
        entry.category@ == entries[at].category@,
        entry.name@ == entries[at].name@,
        forall|k: int|
            at < k < entries.len() ==> (entries[k].category@, entries[k].name@) != (
                entry.category@,
                entry.name@,
            ),
    ensures
        entries_map(entries.update(at, entry)) == entries_map(entries).insert(
            (entry.category@, entry.name@),
            entry.count,
        ),
    decreases entries.len(),
{
    let updated = entries.update(at, entry);
    let key = (entry.category@, entry.name@);
    if at == entries.len() - 1 {
        assert(updated.drop_last() == entries.drop_last());
        assert(entries_map(updated) == entries_map(entries).insert(key, entry.count));
    } else {
        let rest = entries.drop_last();
        assert(updated.drop_last() == rest.update(at, entry));
        lemma_entries_update(rest, at, entry);
        let last = entries.last();
        assert(updated.last() == last);
        assert(entries_map(updated) == entries_map(entries).insert(key, entry.count));
    }
}

proof fn lemma_entries_absent(entries: Seq<NameCount>, key: NameKey)
    requires
        forall|k: int| 0 <= k < entries.len() ==> (entries[k].category@, entries[k].name@) != key,
    ensures
        !entries_map(entries).contains_key(key),
    decreases entries.len(),
{
    if entries.len() > 0 {
        lemma_entries_absent(entries.drop_last(), key);
    }
}

proof fn lemma_entries_found(entries: Seq<NameCount>, at: int)
    requires
        0 <= at < entries.len(),
        forall|k: int|
            at < k < entries.len() ==> (entries[k].category@, entries[k].name@) != (
                entries[at].category@,
                entries[at].name@,
            ),
    ensures
        entries_map(entries).contains_key((entries[at].category@, entries[at].name@)),
        entries_map(entries)[(entries[at].category@, entries[at].name@)] == entries[at].count,
    decreases entries.len(),
{
    if at < entries.len() - 1 {
        lemma_entries_found(entries.drop_last(), at);
    }
}

impl View for UsedNames {
    type V = Map<NameKey, u32>;

    closed spec fn view(&self) -> Map<NameKey, u32> {
        entries_map(self.entries@)
    }
}

impl UsedNames {
    /// The record of a batch that has given out no name yet.
    pub fn new() -> (r: UsedNames)
        ensures
            r@ == Map::<NameKey, u32>::empty(),
    {
        UsedNames { entries: Vec::new() }
    }

    fn position(&self, category: &str, name: &str) -> (r: Option<usize>)
        ensures
            match r {
                Some(at) => at < self.entries.len() && self.entries[at as int].category@
                    == category@ && self.entries[at as int].name@ == name@ && forall|k: int|
                    at < k < self.entries.len() ==> (
                        #[trigger] self.entries[k].category@,
                        self.entries[k].name@,
                    ) != (category@, name@),
                None => forall|k: int|
                    0 <= k < self.entries.len() ==> (
                        #[trigger] self.entries[k].category@,
                        self.entries[k].name@,
                    ) != (category@, name@),
            },
    {
        let mut i: usize = self.entries.len();
        while i > 0
            invariant
                i <= self.entries.len(),
                forall|k: int|
                    i <= k < self.entries.len() ==> (
                        #[trigger] self.entries[k].category@,
                        self.entries[k].name@,
                    ) != (category@, name@),
            decreases i,
        {
            i -= 1;
            let entry = &self.entries[i];
            if same_text(entry.category.as_str(), category) && same_text(
                entry.name.as_str(),
                name,
            ) {
                return Some(i);
            }
        }
        None
    }

    /// The last number given out for a wanted name in a category, if the
    /// batch has given out any.
    pub fn get(&self, category: &str, name: &str) -> (r: Option<u32>)
        ensures
            r == self@.get((category@, name@)),
    {
        match self.position(category, name) {
            Some(at) => {
                proof {
                    lemma_entries_found(self.entries@, at as int);
                }
                Some(self.entries[at].count)
            },
            None => {
                proof {
                    lemma_entries_absent(self.entries@, (category@, name@));
                }
                None
            },
        }
    }

    /// Records `count` as the last number given out for a wanted name in a
    /// category.
    pub fn set(&mut self, category: &str, name: &str, count: u32)
        ensures
            final(self)@ == old(self)@.insert((category@, name@), count),
    {
        let entry = NameCount { category: category.to_owned(), name: name.to_owned(), count };
        match self.position(category, name) {
            Some(at) => {
                proof {
                    lemma_entries_update(self.entries@, at as int, entry);
                }
                self.entries.set(at, entry);
            },
            None => {
                assert(self.entries@.push(entry).drop_last() == self.entries@);
                self.entries.push(entry);
            },
        }
    }
}

/// The wanted name with the number `k` before its extension.
pub fn numbered(wanted: &str, k: u32) -> (r: String)
    ensures
        r@ == numbered_name(wanted@, k as nat),
{
    let mut name = match file_stem(wanted) {
        Some(stem) => stem,
        None => wanted.to_owned(),
    };
    let ext = match extension(wanted) {
        Some(ext) => ext,
        None => String::new(),
    };
    name.push('_');
    push_decimal(&mut name, k);
    if !ext.as_str().is_empty() {
        name.push('.');
        name.append(ext.as_str());
    }
    assert(stem_spec(wanted@).push('_') == stem_spec(wanted@) + seq!['_']);
    assert((stem_spec(wanted@) + seq!['_'] + decimal(k as nat)).push('.') == stem_spec(
        wanted@,
    ) + seq!['_'] + decimal(k as nat) + seq!['.']);
    name
}

/// The next step in resolving a name.
#[derive(Clone, Debug, PartialEq, Eq)]
pub enum NamePlan {
    /// The name is settled and recorded.
    Settled(String),
    /// Whether `path` exists decides on. `counter` is the number under
    /// test; 0 stands for the wanted name itself.
    Probe { path: String, counter: u32 },
    /// Every number up to the largest is taken: the file gets no name.
    Exhausted,
}

/// A `NamePlan` as plain values.
pub enum NamePlanView {
    Settled(Seq<char>),
    Probe { path: Seq<char>, counter: u32 },
    Exhausted,
}

impl View for NamePlan {
    type V = NamePlanView;

    open spec fn view(&self) -> NamePlanView {
        match self {
            NamePlan::Settled(name) => NamePlanView::Settled(name@),
            NamePlan::Probe { path, counter } => NamePlanView::Probe {
                path: path@,
                counter: *counter,
            },
            NamePlan::Exhausted => NamePlanView::Exhausted,
        }
    }
}

/// The first step for a wanted name, by the record of the batch.
///
/// A wanted name that the batch has met before in this category gets the
/// number after the last one given out, and the disk is not asked again.
/// For one that is new the wanted name itself is put to the probe.
pub open spec fn first_step(
    used: Map<NameKey, u32>,
    folder: Seq<char>,
    wanted: Seq<char>,
    category: Seq<char>,
) -> (Map<NameKey, u32>, NamePlanView) {
    match used.get((category, wanted)) {
        Some(count) => if count < u32::MAX {
            (
                used.insert((category, wanted), (count + 1) as u32),
                NamePlanView::Settled(numbered_name(wanted, (count + 1) as nat)),
            )
        } else {
            (used, NamePlanView::Exhausted)
        },
        None => (used, NamePlanView::Probe { path: path_join(folder, wanted), counter: 0 }),
    }
}

/// The step after a probe of the name at `counter`.
///
/// A name that is not on disk is taken and its number recorded. After one
/// that is, the next number is put to the probe.
pub open spec fn probe_step(
    used: Map<NameKey, u32>,
    folder: Seq<char>,
    wanted: Seq<char>,
    category: Seq<char>,
    counter: u32,
    exists: bool,
) -> (Map<NameKey, u32>, NamePlanView) {
    if !exists {
        (
            used.insert((category, wanted), counter),
            NamePlanView::Settled(candidate(wanted, counter as nat)),
        )
    } else if counter < u32::MAX {
        (
            used,
            NamePlanView::Probe {
                path: path_join(folder, numbered_name(wanted, (counter + 1) as nat)),
                counter: (counter + 1) as u32,
            },
        )
    } else {
        (used, NamePlanView::Exhausted)
    }
}

/// Begins to resolve the name that a file gets in `folder`, the folder of
/// `category`, where `original_name` is wanted.
pub fn generate_unique_filename(
    folder: &str,
    original_name: &str,
    used_names: &mut UsedNames,
    category: &str,
) -> (plan: NamePlan)
    ensures
        (final(used_names)@, plan@) == first_step(
            old(used_names)@,
            folder@,
            original_name@,
            category@,
        ),
{
    match used_names.get(category, original_name) {
        Some(count) => {
            if count < u32::MAX {
                let next: u32 = count + 1;
                used_names.set(category, original_name, next);
                NamePlan::Settled(numbered(original_name, next))
            } else {
                NamePlan::Exhausted
            }
        },
        None => NamePlan::Probe { path: join(folder, original_name), counter: 0 },
    }
}

/// Goes on resolving a name with the answer to the probe that was asked
/// for: whether the name at `counter` exists in `folder`.
pub fn resolve_probe(
    folder: &str,
    original_name: &str,
    used_names: &mut UsedNames,
    category: &str,
    counter: u32,
    exists: bool,
) -> (plan: NamePlan)
    ensures
        (final(used_names)@, plan@) == probe_step(
            old(used_names)@,
            folder@,
            original_name@,
            category@,
            counter,
            exists,
        ),
{
    if !exists {
        used_names.set(category, original_name, counter);
        if counter == 0 {
            NamePlan::Settled(original_name.to_owned())
        } else {
            NamePlan::Settled(numbered(original_name, counter))
        }
    } else if counter < u32::MAX {
        let next: u32 = counter + 1;
        let name = numbered(original_name, next);
        NamePlan::Probe { path: join(folder, name.as_str()), counter: next }
    } else {
        NamePlan::Exhausted
    }
}

/// One request of a batch, with what the disk had to say to it: `taken` is
/// the number of names, from the wanted one on, that a probe would find on
/// disk before it finds a free one.
pub struct Request {
    pub category: Seq<char>,
    pub name: Seq<char>,
    pub taken: nat,
}

impl Request {
    pub open spec fn key(self) -> NameKey {
        (self.category, self.name)
    }
}

/// The number at which a request is settled, if it is: the one after the
/// last given out where the batch has met the name before, else the first
/// that the probes find free.
pub open spec fn settled_number(used: Map<NameKey, u32>, request: Request) -> Option<nat> {
    match used.get(request.key()) {
        Some(count) => if count < u32::MAX {
            Some((count + 1) as nat)
        } else {
            None
        },
        None => if request.taken <= u32::MAX {
            Some(request.taken)
        } else {
            None
        },
    }
}

/// The record after a request.
pub open spec fn record_after(used: Map<NameKey, u32>, request: Request) -> Map<NameKey, u32> {
    match settled_number(used, request) {
        Some(number) => used.insert(request.key(), number as u32),
        None => used,
    }
}

/// The record after the first `n` requests of a batch.
pub open spec fn record_at(requests: Seq<Request>, n: nat) -> Map<NameKey, u32>
    decreases n,
{
    if n == 0 {
        Map::empty()
    } else {
        record_after(record_at(requests, (n - 1) as nat), requests[n - 1])
    }
}

/// The number at which request `i` of a batch is settled.
pub open spec fn number_at(requests: Seq<Request>, i: nat) -> Option<nat> {
    settled_number(record_at(requests, i), requests[i as int])
}

/// The name that request `i` of a batch gets.
pub open spec fn name_at(requests: Seq<Request>, i: nat) -> Option<Seq<char>> {
    match number_at(requests, i) {
        Some(number) => Some(candidate(requests[i as int].name, number)),
        None => None,
    }
}

/// A first step that settles the name does what the batch's account says
/// of a request whose name was met before.
pub proof fn lemma_first_step_settles(
    used: Map<NameKey, u32>,
    folder: Seq<char>,
    request: Request,
)
    requires
        used.contains_key(request.key()),
    ensures
        first_step(used, folder, request.name, request.category).0 == record_after(used, request),
        match settled_number(used, request) {
            Some(number) => first_step(used, folder, request.name, request.category).1
                == NamePlanView::Settled(candidate(request.name, number)),
            None => first_step(used, folder, request.name, request.category).1
                == NamePlanView::Exhausted,
        },
{
}

/// Probing from the name at `counter` on, with `taken` names on disk, ends
/// as the batch's account says of a request whose name is new: on the
/// first free number, or with no name where none is left.
pub open spec fn probe_from(
    used: Map<NameKey, u32>,
    folder: Seq<char>,
    request: Request,
    counter: u32,
) -> (Map<NameKey, u32>, NamePlanView)
    decreases u32::MAX - counter,
{
    let step = probe_step(
        used,
        folder,
        request.name,
        request.category,
        counter,
        counter < request.taken,
    );
    if counter < request.taken && counter < u32::MAX {
        probe_from(used, folder, request, (counter + 1) as u32)
    } else {
        step
    }
}

/// The probes of a new name end where the batch's account says.
pub proof fn lemma_probes_settle(
    used: Map<NameKey, u32>,
    folder: Seq<char>,
    request: Request,
    counter: u32,
)
    requires
        !used.contains_key(request.key()),
        counter <= request.taken,
    ensures
        probe_from(used, folder, request, counter).0 == record_after(used, request),
        match settled_number(used, request) {
            Some(number) => probe_from(used, folder, request, counter).1 == NamePlanView::Settled(
                candidate(request.name, number),
            ),
            None => probe_from(used, folder, request, counter).1 == NamePlanView::Exhausted,
        },
    decreases u32::MAX - counter,
{
    if counter < request.taken && counter < u32::MAX {
        lemma_probes_settle(used, folder, request, (counter + 1) as u32);
    }
}

/// Once a request is settled, the record holds its name's key for the rest
/// of the batch, with a number that is at least the one it was settled at.
pub proof fn lemma_numbers_grow(requests: Seq<Request>, i: nat, n: nat)
    requires
        i < n <= requests.len(),
        number_at(requests, i) is Some,
    ensures
        record_at(requests, n).contains_key(requests[i as int].key()),
        record_at(requests, n)[requests[i as int].key()] >= number_at(requests, i).unwrap(),
    decreases n,
{
    if n > i + 1 {
        lemma_numbers_grow(requests, i, (n - 1) as nat);
    }
}

/// Two requests of a batch for the same wanted name in the same category
/// are settled at different numbers, the later at the larger one.
pub proof fn lemma_numbers_distinct(requests: Seq<Request>, i: nat, j: nat)
    requires
        i < j < requests.len(),
        requests[i as int].key() == requests[j as int].key(),
        number_at(requests, i) is Some,
        number_at(requests, j) is Some,
    ensures
        number_at(requests, i).unwrap() < number_at(requests, j).unwrap(),
{
    lemma_numbers_grow(requests, i, j);
}

/// Within a batch no two requests for the same wanted name in the same
/// category get the same name. This is shown of every wanted name that
/// names no directory, and of every other one from its first numbered name
/// on; nothing here tells a name with a directory in it from the numbered
/// names made of its final component.
pub proof fn lemma_names_distinct(requests: Seq<Request>, i: nat, j: nat)
    requires
        i < j < requests.len(),
        requests[i as int].key() == requests[j as int].key(),
        name_at(requests, i) is Some,
        name_at(requests, j) is Some,
        own_component(requests[i as int].name) || number_at(requests, i) != Some(0nat),
    ensures
        name_at(requests, i) != name_at(requests, j),
{
    lemma_numbers_distinct(requests, i, j);
    let wanted = requests[i as int].name;
    let a = number_at(requests, i).unwrap();
    let b = number_at(requests, j).unwrap();
    if a == 0 {
        lemma_numbered_differs(wanted, b);
    } else if numbered_name(wanted, a) == numbered_name(wanted, b) {
        lemma_numbered_injective(wanted, a, b);
    }
}

/// A name that the probes of request `i` found on disk before they
/// settled it is given to no request of the batch for the same wanted name
/// in the same category, from `i` on. For the wanted name itself this is
/// shown where it names no directory.
pub proof fn lemma_taken_names_spared(requests: Seq<Request>, i: nat, j: nat, found: nat)
    requires
        i <= j < requests.len(),
        requests[i as int].key() == requests[j as int].key(),
        !record_at(requests, i).contains_key(requests[i as int].key()),
        number_at(requests, i) is Some,
        found < requests[i as int].taken,
        own_component(requests[i as int].name) || found > 0,
    ensures
        name_at(requests, j) != Some(candidate(requests[i as int].name, found)),
{
    let wanted = requests[i as int].name;
    if name_at(requests, j) is Some {
        if i < j {
            lemma_numbers_distinct(requests, i, j);
        }
        let b = number_at(requests, j).unwrap();
        assert(b > found);
        if found == 0 {
            lemma_numbered_differs(wanted, b);
        } else if numbered_name(wanted, found) == numbered_name(wanted, b) {
            lemma_numbered_injective(wanted, found, b);
        }
    }
}

/// Requests for one wanted name in one category that follow each other
/// in a batch are settled at numbers that rise by one: the request `k`
/// places after request `i` gets the number of request `i` and `k`.
pub proof fn lemma_numbers_in_a_row(requests: Seq<Request>, i: nat, k: nat)
    requires
        i + k < requests.len(),
        forall|j: nat| i <= j <= i + k ==> (#[trigger] requests[j as int]).key() == requests[i as int].key(),
        number_at(requests, i) is Some,
        number_at(requests, i).unwrap() + k <= u32::MAX,
    ensures
        number_at(requests, i + k) == Some(number_at(requests, i).unwrap() + k),
        record_at(requests, i + k + 1)[requests[i as int].key()] == number_at(requests, i).unwrap()
            + k,
        record_at(requests, i + k + 1).contains_key(requests[i as int].key()),
    decreases k,
{
    if k > 0 {
        lemma_numbers_in_a_row(requests, i, (k - 1) as nat);
        assert(requests[(i + k) as int].key() == requests[i as int].key());
        assert(record_at(requests, i + k) == record_at(requests, (i + (k - 1) as nat + 1) as nat));
    }
}

/// The names of such requests differ from each other: the first is the
/// wanted name or a numbered one, and each that follows is the numbered
/// name of the next number.
pub proof fn lemma_names_in_a_row(requests: Seq<Request>, i: nat, j: nat, k: nat)
    requires
        i + k < requests.len(),
        forall|m: nat| i <= m <= i + k ==> (#[trigger] requests[m as int]).key() == requests[i as int].key(),
        number_at(requests, i) is Some,
        number_at(requests, i).unwrap() + k <= u32::MAX,
        j < k,
        own_component(requests[i as int].name) || number_at(requests, i) != Some(0nat),
    ensures
        name_at(requests, i + k) == Some(
            numbered_name(requests[i as int].name, number_at(requests, i).unwrap() + k),
        ),
        name_at(requests, i + j) != name_at(requests, i + k),
{
    lemma_numbers_in_a_row(requests, i, k);
    lemma_numbers_in_a_row(requests, i, j);
    let wanted = requests[i as int].name;
    assert(requests[(i + k) as int].key() == requests[i as int].key());
    assert(requests[(i + j) as int].key() == requests[i as int].key());
    let a = number_at(requests, i).unwrap() + j;
    let b = number_at(requests, i).unwrap() + k;
    if a == 0 {
        lemma_numbered_differs(wanted, b);
    } else if numbered_name(wanted, a) == numbered_name(wanted, b) {
        lemma_numbered_injective(wanted, a, b);
    }
}

} // verus!
