//! The block list: the hostnames that the proxy refuses, and the rule by
//! which the store file and the list in memory grow together.

use vstd::prelude::*;
use vstd::string::*;

verus! {

/// The characters that Unicode gives the property `White_Space`.
pub open spec fn is_white_space(c: char) -> bool {
    let n = c as u32;
    ||| 0x09 <= n <= 0x0D
    ||| n == 0x20
    ||| n == 0x85
    ||| n == 0xA0
    ||| n == 0x1680
    ||| 0x2000 <= n <= 0x200A
    ||| n == 0x2028
    ||| n == 0x2029
    ||| n == 0x202F
    ||| n == 0x205F
    ||| n == 0x3000
}

/// `s` without the white space at its two ends.
pub open spec fn trimmed(s: Seq<char>) -> Seq<char>
    decreases s.len(),
{
    if s.len() > 0 && is_white_space(s[0]) {
        trimmed(s.skip(1))
    } else if s.len() > 0 && is_white_space(s.last()) {
        trimmed(s.drop_last())
    } else {
        s
    }
}

/// Calls `str::trim`, which returns the slice of `s` that is left when the
/// leading and the trailing characters of Unicode's `White_Space` are taken
/// off.
#[verifier::external_body]
pub(crate) fn trim<'a>(s: &'a str) -> (t: &'a str)
    ensures
        t@ == trimmed(s@),
{
    s.trim()
}

/// Some line of `lines` is exactly `host`.
pub open spec fn stored(lines: Seq<String>, host: Seq<char>) -> bool {
    exists|i: int| 0 <= i < lines.len() && #[trigger] lines[i]@ == host
}

/// The lines of `lines` that are not empty, as a set.
pub open spec fn hosts_of(lines: Seq<String>) -> Set<Seq<char>> {
    Set::new(|host: Seq<char>| host.len() > 0 && stored(lines, host))
}

/// The list after the lines of the store were loaded into it.
pub open spec fn entries_after_load(entries: Set<Seq<char>>, lines: Seq<String>) -> Set<
    Seq<char>,
> {
    entries.union(hosts_of(lines))
}

/// Whether `host` is added to a store that holds `lines`: it is where no
/// line is `host`.
pub open spec fn is_added(lines: Seq<String>, host: Seq<char>) -> bool {
    !stored(lines, host)
}

/// The list after `host` was offered to it, with `lines` in the store.
pub open spec fn entries_after_add(
    entries: Set<Seq<char>>,
    lines: Seq<String>,
    host: Seq<char>,
) -> Set<Seq<char>> {
    if is_added(lines, host) {
        entries.insert(host)
    } else {
        entries
    }
}

/// The block list in memory and the path of the store behind it.
pub struct ProxyData {
    blocked_sites: Vec<String>,
    file_name: String,
}

impl Default for ProxyData {
    fn default() -> (data: Self)
        ensures
            data.wf(),
            data.entries() == Set::<Seq<char>>::empty(),
            data.path() == Seq::<char>::empty(),
    {
        ProxyData::new(String::new())
    }
}

impl ProxyData {
    /// No hostname stands twice in the list.
    pub closed spec fn wf(&self) -> bool {
        forall|i: int, j: int|
            0 <= i < j < self.blocked_sites@.len() ==> self.blocked_sites@[i]@
                != self.blocked_sites@[j]@
    }

    /// The hostnames that are blocked.
    pub closed spec fn entries(&self) -> Set<Seq<char>> {
        Set::new(|host: Seq<char>| stored(self.blocked_sites@, host))
    }

    /// The path of the store.
    pub closed spec fn path(&self) -> Seq<char> {
        self.file_name@
    }

    /// An empty list over the store at `file_name`.
    pub fn new(file_name: String) -> (data: Self)
        ensures
            data.wf(),
            data.entries() == Set::<Seq<char>>::empty(),
            data.path() == file_name@,
    {
        let data = ProxyData { blocked_sites: Vec::new(), file_name };
        proof {
            assert(data.entries() =~= Set::<Seq<char>>::empty());
        }
        data
    }

    /// The path of the store.
    pub fn file_name(&self) -> (name: &String)
        ensures
            name@ == self.path(),
    {
        &self.file_name
    }

    /// The blocked hostnames, each once.
    pub fn blocked_sites(&self) -> (sites: &Vec<String>)
        requires
            self.wf(),
        ensures
            forall|host: Seq<char>| stored(sites@, host) <==> self.entries().contains(host),
            forall|i: int, j: int| 0 <= i < j < sites@.len() ==> sites@[i]@ != sites@[j]@,
    {
        &self.blocked_sites
    }

    /// The number of blocked hostnames.
    pub fn len(&self) -> (n: usize)
        requires
            self.wf(),
        ensures
            self.entries().finite(),
            n == self.entries().len(),
    {
        proof {
            lemma_distinct_count(self.blocked_sites@);
        }
        self.blocked_sites.len()
    }

    /// Whether `host_name` is blocked.
    pub fn is_blocked(&self, host_name: &str) -> (blocked: bool)
        ensures
            blocked == self.entries().contains(host_name@),
    {
        contains_line(&self.blocked_sites, host_name)
    }

    /// Puts `host` into the list unless it is there.
    fn insert(&mut self, host: &str)
        requires
            old(self).wf(),
        ensures
            final(self).wf(),
            final(self).entries() == old(self).entries().insert(host@),
            final(self).path() == old(self).path(),
    {
        if !contains_line(&self.blocked_sites, host) {
            self.blocked_sites.push(String::from_str(host));
            proof {
                let n = old(self).blocked_sites@.len() as int;
                assert(self.blocked_sites@[n]@ == host@);
                assert forall|i: int| 0 <= i < n implies self.blocked_sites@[i]
                    == old(self).blocked_sites@[i] by {}
            }
        }
        proof {
            assert forall|h: Seq<char>| self.entries().contains(h) <==> old(
                self,
            ).entries().insert(host@).contains(h) by {
                if stored(self.blocked_sites@, h) {
                    let i = choose|i: int|
                        0 <= i < self.blocked_sites@.len() && self.blocked_sites@[i]@ == h;
                    if i < old(self).blocked_sites@.len() {
                        assert(old(self).blocked_sites@[i]@ == h);
                    }
                }
                if stored(old(self).blocked_sites@, h) {
                    let i = choose|i: int|
                        0 <= i < old(self).blocked_sites@.len() && old(self).blocked_sites@[i]@
                            == h;
                    assert(self.blocked_sites@[i]@ == h);
                }
            }
            assert(self.entries() =~= old(self).entries().insert(host@));
        }
    }

    /// Takes the lines of the store into the list, the empty ones left out.
    pub fn load_blocked_sites(&mut self, lines: &Vec<String>)
        requires
            old(self).wf(),
        ensures
            final(self).wf(),
            final(self).entries() == entries_after_load(old(self).entries(), lines@),
            final(self).path() == old(self).path(),
    {
        let mut i: usize = 0;
        while i < lines.len()
            invariant
                i <= lines.len(),
                self.wf(),
                self.path() == old(self).path(),
                self.entries() == entries_after_load(old(self).entries(), lines@.take(i as int)),
            decreases lines.len() - i,
        {
            let ghost seen = self.entries();
            if lines[i].as_str().unicode_len() > 0 {
                self.insert(lines[i].as_str());
            }
            proof {
                let prefix = lines@.take(i as int);
                let longer = lines@.take(i + 1);
                assert forall|h: Seq<char>| hosts_of(longer).contains(h) <==> (hosts_of(
                    prefix,
                ).contains(h) || (h.len() > 0 && h == lines@[i as int]@)) by {
                    if stored(longer, h) {
                        let k = choose|k: int| 0 <= k < longer.len() && longer[k]@ == h;
                        if k < i {
                            assert(prefix[k]@ == h);
                        }
                    }
                    if stored(prefix, h) {
                        let k = choose|k: int| 0 <= k < prefix.len() && prefix[k]@ == h;
                        assert(longer[k]@ == h);
                    }
                    if h == lines@[i as int]@ {
                        assert(longer[i as int]@ == h);
                    }
                }
                assert(self.entries() =~= entries_after_load(old(self).entries(), longer));
            }
            i += 1;
        }
        proof {
            assert(lines@.take(lines@.len() as int) =~= lines@);
        }
    }

    /// Offers the operator's input to the list: `site` without the white
    /// space at its ends is added unless a line of the store is exactly that.
    /// Returns whether it was added; the caller then appends `site` to the
    /// store.
    pub fn add_blocked_site(&mut self, store_lines: &Vec<String>, site: &str) -> (added: bool)
        requires
            old(self).wf(),
        ensures
            final(self).wf(),
            added == is_added(store_lines@, trimmed(site@)),
            final(self).entries() == entries_after_add(
                old(self).entries(),
                store_lines@,
                trimmed(site@),
            ),
            final(self).path() == old(self).path(),
    {
        self.add_if_absent(store_lines, trim(site))
    }

    /// Adds `host` to the list unless a line of the store is exactly `host`.
    /// Returns whether it was added.
    pub fn add_if_absent(&mut self, store_lines: &Vec<String>, host: &str) -> (added: bool)
        requires
            old(self).wf(),
        ensures
            final(self).wf(),
            added == is_added(store_lines@, host@),
            final(self).entries() == entries_after_add(old(self).entries(), store_lines@, host@),
            final(self).path() == old(self).path(),
    {
        if contains_line(store_lines, host) {
            false
        } else {
            self.insert(host);
            true
        }
    }
}

/// Whether some line of `lines` is exactly `host`.
pub fn contains_line(lines: &Vec<String>, host: &str) -> (found: bool)
    ensures
        found == stored(lines@, host@),
{
    let wanted = String::from_str(host);
    let mut i: usize = 0;
    while i < lines.len()
        invariant
            i <= lines.len(),
            wanted@ == host@,
            forall|j: int| 0 <= j < i ==> lines@[j]@ != host@,
        decreases lines.len() - i,
    {
        if lines[i] == wanted {
            return true;
        }
        i += 1;
    }
    false
}

/// Lines that are all different are as many as the hostnames they hold.
pub proof fn lemma_distinct_count(lines: Seq<String>)
    requires
        forall|i: int, j: int| 0 <= i < j < lines.len() ==> lines[i]@ != lines[j]@,
    ensures
        Set::new(|host: Seq<char>| stored(lines, host)).finite(),
        Set::new(|host: Seq<char>| stored(lines, host)).len() == lines.len(),
    decreases lines.len(),
{
    let all = Set::new(|host: Seq<char>| stored(lines, host));
    if lines.len() == 0 {
        assert(all =~= Set::<Seq<char>>::empty());
    } else {
        let shorter = lines.drop_last();
        let rest = Set::new(|host: Seq<char>| stored(shorter, host));
        lemma_distinct_count(shorter);
        let last = lines.last()@;
        assert(!rest.contains(last)) by {
            if stored(shorter, last) {
                let k = choose|k: int| 0 <= k < shorter.len() && shorter[k]@ == last;
                assert(lines[k]@ == last);
            }
        }
        assert forall|h: Seq<char>| all.contains(h) <==> rest.insert(last).contains(h) by {
            if stored(lines, h) {
                let k = choose|k: int| 0 <= k < lines.len() && lines[k]@ == h;
                if k < shorter.len() {
                    assert(shorter[k]@ == h);
                }
            }
            if stored(shorter, h) {
                let k = choose|k: int| 0 <= k < shorter.len() && shorter[k]@ == h;
                assert(lines[k]@ == h);
            }
            if h == last {
                assert(lines[lines.len() - 1]@ == h);
            }
        }
        assert(all =~= rest.insert(last));
    }
}

/// A hostname is blocked as soon as it was added.
pub proof fn lemma_added_host_is_blocked(
    entries: Set<Seq<char>>,
    lines: Seq<String>,
    host: Seq<char>,
)
    requires
        is_added(lines, host),
    ensures
        entries_after_add(entries, lines, host).contains(host),
{
}

/// What is blocked stays blocked: neither loading the store nor offering a
/// hostname takes anything out of the list.
pub proof fn lemma_blocked_stays_blocked(
    entries: Set<Seq<char>>,
    lines: Seq<String>,
    host: Seq<char>,
    blocked: Seq<char>,
)
    requires
        entries.contains(blocked),
    ensures
        entries_after_add(entries, lines, host).contains(blocked),
        entries_after_load(entries, lines).contains(blocked),
{
}

/// Offering a hostname a second time, when the store holds the line that the
/// first offer had appended, adds nothing: the answer is "not added" and the
/// list is as the first offer left it. Whatever the store then holds, the
/// list does not grow by a second offer.
pub proof fn lemma_second_offer_adds_nothing(
    entries: Set<Seq<char>>,
    first_lines: Seq<String>,
    second_lines: Seq<String>,
    host: Seq<char>,
)
    requires
        is_added(first_lines, host),
    ensures
        stored(second_lines, host) ==> !is_added(second_lines, host),
        entries_after_add(entries_after_add(entries, first_lines, host), second_lines, host)
            == entries_after_add(entries, first_lines, host),
{
    let once = entries_after_add(entries, first_lines, host);
    assert(once.insert(host) =~= once);
}

/// The store after `line` was offered, where what is appended for an added
/// hostname stands in the store as a line of its own.
pub open spec fn lines_after_add(lines: Seq<String>, line: String) -> Seq<String> {
    if is_added(lines, line@) {
        lines.push(line)
    } else {
        lines
    }
}

/// How many of `n` offers of `line`, made one after the other, are added.
pub open spec fn added_in_turn(lines: Seq<String>, line: String, n: nat) -> nat
    decreases n,
{
    if n == 0 {
        0
    } else {
        let rest = added_in_turn(lines_after_add(lines, line), line, (n - 1) as nat);
        if is_added(lines, line@) {
            1 + rest
        } else {
            rest
        }
    }
}

/// The list after `n` offers of `line`, made one after the other.
pub open spec fn entries_in_turn(
    entries: Set<Seq<char>>,
    lines: Seq<String>,
    line: String,
    n: nat,
) -> Set<Seq<char>>
    decreases n,
{
    if n == 0 {
        entries
    } else {
        entries_in_turn(
            entries_after_add(entries, lines, line@),
            lines_after_add(lines, line),
            line,
            (n - 1) as nat,
        )
    }
}

/// Offers of a hostname that the store holds add nothing, however many.
pub proof fn lemma_stored_host_is_never_added(
    entries: Set<Seq<char>>,
    lines: Seq<String>,
    line: String,
    n: nat,
)
    requires
        stored(lines, line@),
    ensures
        added_in_turn(lines, line, n) == 0,
        entries_in_turn(entries, lines, line, n) == entries,
    decreases n,
{
    if n > 0 {
        lemma_stored_host_is_never_added(entries, lines, line, (n - 1) as nat);
    }
}

/// Of any number of offers of one hostname that come one after the other, as
/// the lock makes them, exactly one is added where the store did not hold
/// the hostname, and none where it did; the list is as the first offer left
/// it.
pub proof fn lemma_one_offer_in_turn_is_added(
    entries: Set<Seq<char>>,
    lines: Seq<String>,
    line: String,
    n: nat,
)
    requires
        n >= 1,
    ensures
        added_in_turn(lines, line, n) == (if is_added(lines, line@) {
            1nat
        } else {
            0nat
        }),
        entries_in_turn(entries, lines, line, n) == entries_after_add(entries, lines, line@),
{
    let then_lines = lines_after_add(lines, line);
    let then_entries = entries_after_add(entries, lines, line@);
    if is_added(lines, line@) {
        assert(then_lines[lines.len() as int]@ == line@);
    }
    assert(stored(then_lines, line@));
    lemma_stored_host_is_never_added(then_entries, then_lines, line, (n - 1) as nat);
}

/// A text with no white space at either end is its own trimmed form.
pub proof fn lemma_trimmed_keeps_plain_text(s: Seq<char>)
    requires
        s.len() == 0 || (!is_white_space(s[0]) && !is_white_space(s.last())),
    ensures
        trimmed(s) == s,
{
}

} // verus!
