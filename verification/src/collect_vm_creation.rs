//! Describing the VMs that a script run created: cycle counts for humans,
//! VM keys, and the spawn tree drawn line by line.
use crate::text::{dec_digit, push_char, push_decimal, spec_decimal};
use vstd::prelude::*;

verus! {

/// A cycle count, shown with a binary-prefixed approximation when large.
#[derive(Clone, Copy, Debug)]
pub struct HumanReadableCycles(pub u64);

/// How a cycle count is approximated.
#[derive(Clone, Copy, Debug, PartialEq, Eq, Structural)]
pub enum CycleScale {
    /// Below 1024: the count alone.
    Exact,
    /// From 1024 on: the count followed by its value in Ki, to one decimal.
    Kilo,
    /// From 1024 * 1024 on: the count followed by its value in Mi, to one decimal.
    Mega,
}

impl HumanReadableCycles {
    /// The approximation to show after the exact count.
    pub fn scale(&self) -> (s: CycleScale)
        ensures
            s == (if self.0 >= 1048576 {
                CycleScale::Mega
            } else if self.0 >= 1024 {
                CycleScale::Kilo
            } else {
                CycleScale::Exact
            }),
    {
        if self.0 >= 1024 * 1024 {
            CycleScale::Mega
        } else if self.0 >= 1024 {
            CycleScale::Kilo
        } else {
            CycleScale::Exact
        }
    }
}

/// Identifies one VM of a script run: its id and, for a VM that replaced
/// its program with `exec`, the generation.
#[derive(Clone, Copy, Debug, PartialEq, Eq, Structural)]
pub struct CollectorKey {
    /// The VM id; the script's root VM is 0.
    pub vm_id: u64,
    /// The generation; 0 until the VM calls `exec`.
    pub generation_id: u64,
}

/// Where a VM's program was loaded from.
#[derive(Clone, Copy, Debug)]
pub struct BinaryLocator {
    /// Index of the cell or witness.
    pub index: u64,
    /// Source of the cell or witness, as a CKB source number.
    pub source: u64,
    /// Offset of the program inside the cell or witness.
    pub offset: u32,
    /// Length of the program.
    pub length: u32,
}

/// What a run recorded for one VM: where its program came from and the VMs it spawned.
pub struct VmTraceEntry {
    /// The VM.
    pub key: CollectorKey,
    /// Where its program came from.
    pub locator: BinaryLocator,
    /// The VMs it spawned, in order.
    pub children: Vec<CollectorKey>,
}

/// `"{vm_id}"`, or `"{vm_id}/{generation_id}"` once the generation is not 0.
pub open spec fn spec_key_str(k: CollectorKey) -> Seq<char> {
    if k.generation_id != 0 {
        spec_decimal(k.vm_id as nat) + seq!['/'] + spec_decimal(k.generation_id as nat)
    } else {
        spec_decimal(k.vm_id as nat)
    }
}

/// Renders a VM key.
pub fn collector_key_str(key: &CollectorKey) -> (s: String)
    ensures
        s@ == spec_key_str(*key),
{
    let mut s = String::new();
    push_decimal(&mut s, key.vm_id);
    if key.generation_id != 0 {
        push_char(&mut s, '/');
        push_decimal(&mut s, key.generation_id);
    }
    assert(s@ =~= spec_key_str(*key));
    s
}

/// The name of a CKB source number, for the sources a program can be loaded from.
pub open spec fn spec_source_name(source: u64) -> Option<Seq<char>> {
    if source == 1 {
        Some(seq!['i', 'n', 'p', 'u', 't'])
    } else if source == 2 {
        Some(seq!['o', 'u', 't', 'p', 'u', 't'])
    } else if source == 3 {
        Some(seq!['c', 'e', 'l', 'l', '_', 'd', 'e', 'p'])
    } else if source == 4 {
        Some(seq!['h', 'e', 'a', 'd', 'e', 'r', '_', 'd', 'e', 'p'])
    } else if source == 0x0100000000000001 {
        Some(seq!['g', 'r', 'o', 'u', 'p', '_', 'i', 'n', 'p', 'u', 't'])
    } else if source == 0x0100000000000002 {
        Some(seq!['g', 'r', 'o', 'u', 'p', '_', 'o', 'u', 't', 'p', 'u', 't'])
    } else {
        None
    }
}

/// A locator that can be described: a known source, and an end that fits in 32 bits.
pub open spec fn locator_ok(l: BinaryLocator) -> bool {
    &&& spec_source_name(l.source) is Some
    &&& l.offset + l.length <= u32::MAX
}

/// `"{source}[{index}][{offset}..{offset + length}]"`.
pub open spec fn spec_hint(l: BinaryLocator) -> Seq<char> {
    spec_source_name(l.source).unwrap() + seq!['['] + spec_decimal(l.index as nat) + seq![']', '[']
        + spec_decimal(l.offset as nat) + seq!['.', '.'] + spec_decimal((l.offset + l.length) as nat) + seq![']']
}

fn push_str_chars(out: &mut Vec<char>, s: &[char])
    ensures
        final(out)@ == old(out)@ + s@,
{
    let ghost start = out@;
    let mut i: usize = 0;
    while i < s.len()
        invariant
            i <= s@.len(),
            out@ == start + s@.subrange(0, i as int),
        decreases s@.len() - i,
    {
        out.push(s[i]);
        i = i + 1;
        assert(out@ =~= start + s@.subrange(0, i as int));
    }
    assert(s@.subrange(0, i as int) =~= s@);
}

fn push_decimal_chars(out: &mut Vec<char>, n: u64)
    ensures
        final(out)@ == old(out)@ + spec_decimal(n as nat),
    decreases n,
{
    if n < 10 {
        out.push(((48 + n) as u8) as char);
        assert(spec_decimal(n as nat) =~= seq![dec_digit(n as int)]);
    } else {
        push_decimal_chars(out, n / 10);
        out.push(((48 + n % 10) as u8) as char);
    }
}

fn source_name(source: u64) -> (r: Option<Vec<char>>)
    ensures
        match (r, spec_source_name(source)) {
            (Some(v), Some(s)) => v@ == s,
            (None, None) => true,
            _ => false,
        },
{
    let mut v: Vec<char> = Vec::new();
    if source == 1 {
        v.push('i'); v.push('n'); v.push('p'); v.push('u'); v.push('t');
    } else if source == 2 {
        v.push('o'); v.push('u'); v.push('t'); v.push('p'); v.push('u'); v.push('t');
    } else if source == 3 {
        v.push('c'); v.push('e'); v.push('l'); v.push('l'); v.push('_'); v.push('d'); v.push('e'); v.push('p');
    } else if source == 4 {
        v.push('h'); v.push('e'); v.push('a'); v.push('d'); v.push('e'); v.push('r'); v.push('_'); v.push('d');
        v.push('e'); v.push('p');
    } else if source == 0x0100000000000001 {
        v.push('g'); v.push('r'); v.push('o'); v.push('u'); v.push('p'); v.push('_'); v.push('i'); v.push('n');
        v.push('p'); v.push('u'); v.push('t');
    } else if source == 0x0100000000000002 {
        v.push('g'); v.push('r'); v.push('o'); v.push('u'); v.push('p'); v.push('_'); v.push('o'); v.push('u');
        v.push('t'); v.push('p'); v.push('u'); v.push('t');
    } else {
        return None;
    }
    assert(v@ =~= spec_source_name(source).unwrap());
    Some(v)
}

fn hint_chars(l: &BinaryLocator) -> (r: Vec<char>)
    requires
        locator_ok(*l),
    ensures
        r@ == spec_hint(*l),
{
    let mut r = match source_name(l.source) {
        Some(v) => v,
        None => Vec::new(),
    };
    r.push('[');
    push_decimal_chars(&mut r, l.index);
    r.push(']');
    r.push('[');
    push_decimal_chars(&mut r, l.offset as u64);
    r.push('.');
    r.push('.');
    push_decimal_chars(&mut r, (l.offset + l.length) as u64);
    r.push(']');
    assert(r@ =~= spec_hint(*l));
    r
}

/// Position of the entry for `k`, searching from `start`.
pub open spec fn entry_pos(e: Seq<VmTraceEntry>, k: CollectorKey, start: int) -> Option<int>
    decreases e.len() - start,
{
    if start < 0 || start >= e.len() {
        None
    } else if e[start].key == k {
        Some(start)
    } else {
        entry_pos(e, k, start + 1)
    }
}

proof fn lemma_entry_pos(e: Seq<VmTraceEntry>, k: CollectorKey, start: int)
    ensures
        entry_pos(e, k, start) matches Some(i) ==> 0 <= start <= i < e.len() && e[i].key == k,
    decreases e.len() - start,
{
    if 0 <= start < e.len() && e[start].key != k {
        lemma_entry_pos(e, k, start + 1);
    }
}

/// The recorded children of `k` (none if `k` has no entry).
pub open spec fn spec_children(e: Seq<VmTraceEntry>, k: CollectorKey) -> Seq<CollectorKey> {
    match entry_pos(e, k, 0) {
        Some(i) => e[i].children@,
        None => Seq::empty(),
    }
}

/// The description of `k`'s program (empty if `k` has no entry).
pub open spec fn spec_key_hint(e: Seq<VmTraceEntry>, k: CollectorKey) -> Seq<char> {
    match entry_pos(e, k, 0) {
        Some(i) => spec_hint(e[i].locator),
        None => Seq::empty(),
    }
}

/// Every entry's locator can be described.
pub open spec fn locators_ok(e: Seq<VmTraceEntry>) -> bool {
    forall|i: int| 0 <= i < e.len() ==> locator_ok(#[trigger] e[i].locator)
}

/// VM `k` and its descendants can be drawn within `depth` levels: every VM
/// on the way has an entry, and no chain of spawns from `k` holds more than
/// `depth` VMs.
pub open spec fn drawable(e: Seq<VmTraceEntry>, k: CollectorKey, depth: nat) -> bool
    decreases depth, 0int,
{
    if depth == 0 {
        false
    } else {
        entry_pos(e, k, 0) is Some && children_drawable(e, spec_children(e, k), 0, (depth - 1) as nat)
    }
}

/// Children `i..` of a node can each be drawn within `depth` levels.
pub open spec fn children_drawable(e: Seq<VmTraceEntry>, cs: Seq<CollectorKey>, i: int, depth: nat) -> bool
    decreases depth, cs.len() - i,
{
    if i < 0 || i >= cs.len() {
        true
    } else {
        drawable(e, cs[i], depth) && children_drawable(e, cs, i + 1, depth)
    }
}

/// The tree can be drawn: every entry's locator can be described and, when
/// some VM spawned another, the root VM and every VM it reaches have an
/// entry and no chain of spawns from the root holds more VMs than there are
/// entries (which holds exactly when no VM reachable from the root is its
/// own descendant: see [`lemma_drawable_has_no_cycle`] and
/// [`lemma_acyclic_is_drawable`]).
pub open spec fn spec_renderable(e: Seq<VmTraceEntry>) -> bool {
    &&& locators_ok(e)
    &&& has_spawns(e) ==> drawable(e, CollectorKey { vm_id: 0, generation_id: 0 }, e.len())
}

/// VM `a` spawned VM `b`, as `a`'s entry records.
pub open spec fn spawns(e: Seq<VmTraceEntry>, a: CollectorKey, b: CollectorKey) -> bool {
    spec_children(e, a).contains(b)
}

/// `q` is a chain of spawns: each VM in it spawned the next.
pub open spec fn is_spawn_path(e: Seq<VmTraceEntry>, q: Seq<CollectorKey>) -> bool {
    &&& q.len() > 0
    &&& forall|i: int, j: int| #![trigger spawns(e, q[i], q[j])] 0 <= i && j == i + 1 && j < q.len() ==> spawns(e, q[i], q[j])
}

proof fn lemma_child_drawable(e: Seq<VmTraceEntry>, cs: Seq<CollectorKey>, i: int, j: int, depth: nat)
    requires
        children_drawable(e, cs, i, depth),
        0 <= i <= j < cs.len(),
    ensures
        drawable(e, cs[j], depth),
    decreases j - i,
{
    if i < j {
        lemma_child_drawable(e, cs, i + 1, j, depth);
    }
}

proof fn lemma_drawable_along_path(e: Seq<VmTraceEntry>, q: Seq<CollectorKey>, d: nat, m: int)
    requires
        is_spawn_path(e, q),
        drawable(e, q[0], d),
        0 <= m < q.len(),
    ensures
        d >= m + 1,
        drawable(e, q[m], (d - m) as nat),
    decreases m,
{
    if m > 0 {
        lemma_drawable_along_path(e, q, d, m - 1);
        assert(spawns(e, q[m - 1], q[m]));
        let cs = spec_children(e, q[m - 1]);
        let j = choose|j: int| 0 <= j < cs.len() && cs[j] == q[m];
        lemma_child_drawable(e, cs, 0, j, (d - m) as nat);
    }
}

proof fn lemma_no_return(e: Seq<VmTraceEntry>, seg: Seq<CollectorKey>, d: nat)
    requires
        is_spawn_path(e, seg),
        seg.len() >= 2,
        seg[0] == seg[seg.len() - 1],
    ensures
        !drawable(e, seg[0], d),
    decreases d,
{
    if drawable(e, seg[0], d) {
        lemma_drawable_along_path(e, seg, d, seg.len() - 1);
        lemma_no_return(e, seg, (d - (seg.len() - 1)) as nat);
    }
}

/// A tree drawable within `d` levels has no cycle: along any chain of spawns
/// from its top VM no VM occurs twice, and the chain holds at most `d` VMs.
pub proof fn lemma_drawable_has_no_cycle(e: Seq<VmTraceEntry>, q: Seq<CollectorKey>, d: nat)
    requires
        is_spawn_path(e, q),
        drawable(e, q[0], d),
    ensures
        q.no_duplicates(),
        q.len() <= d,
{
    lemma_drawable_along_path(e, q, d, q.len() - 1);
    assert forall|a: int, b: int| 0 <= a < q.len() && 0 <= b < q.len() && a != b implies q[a] != q[b] by {
        if q[a] == q[b] {
            let lo = if a < b { a } else { b };
            let hi = if a < b { b } else { a };
            let seg = q.subrange(lo, hi + 1);
            assert forall|i: int, j: int| 0 <= i && j == i + 1 && j < seg.len() implies #[trigger] spawns(e, seg[i], seg[j]) by {
                assert(spawns(e, q[lo + i], q[lo + j]));
            }
            lemma_drawable_along_path(e, q, d, lo);
            lemma_no_return(e, seg, (d - lo) as nat);
        }
    }
}

proof fn lemma_undrawable_child(e: Seq<VmTraceEntry>, cs: Seq<CollectorKey>, i: int, depth: nat) -> (j: int)
    requires
        0 <= i,
        !children_drawable(e, cs, i, depth),
    ensures
        i <= j < cs.len(),
        !drawable(e, cs[j], depth),
    decreases cs.len() - i,
{
    if drawable(e, cs[i], depth) {
        lemma_undrawable_child(e, cs, i + 1, depth)
    } else {
        i
    }
}

/// Every VM on a chain of spawns from `k` has an entry.
pub open spec fn reachable_have_entries(e: Seq<VmTraceEntry>, k: CollectorKey) -> bool {
    forall|q: Seq<CollectorKey>, i: int| #![trigger is_spawn_path(e, q), q[i]]
        is_spawn_path(e, q) && q[0] == k && 0 <= i < q.len() ==> entry_pos(e, q[i], 0) is Some
}

/// No chain of spawns from `k` meets a VM twice.
pub open spec fn acyclic_from(e: Seq<VmTraceEntry>, k: CollectorKey) -> bool {
    forall|q: Seq<CollectorKey>| #![trigger is_spawn_path(e, q)]
        is_spawn_path(e, q) && q[0] == k ==> q.no_duplicates()
}

proof fn lemma_long_path(e: Seq<VmTraceEntry>, q: Seq<CollectorKey>, d: nat) -> (r: Seq<CollectorKey>)
    requires
        is_spawn_path(e, q),
        reachable_have_entries(e, q[0]),
        !drawable(e, q[q.len() - 1], d),
    ensures
        is_spawn_path(e, r),
        r[0] == q[0],
        r.len() == q.len() + d,
    decreases d,
{
    if d == 0 {
        q
    } else {
        let last = q[q.len() - 1];
        assert(entry_pos(e, q[q.len() - 1], 0) is Some);
        let cs = spec_children(e, last);
        let j = lemma_undrawable_child(e, cs, 0, (d - 1) as nat);
        let q2 = q.push(cs[j]);
        assert(cs.contains(cs[j]));
        assert forall|a: int, b: int| 0 <= a && b == a + 1 && b < q2.len() implies #[trigger] spawns(e, q2[a], q2[b]) by {
            if b < q.len() {
                assert(spawns(e, q[a], q[b]));
            }
        }
        assert forall|p: Seq<CollectorKey>, i: int| is_spawn_path(e, p) && p[0] == q2[0] && 0 <= i < p.len()
            implies #[trigger] entry_pos(e, p[i], 0) is Some by {
            assert(is_spawn_path(e, p) && p[0] == q[0]);
        }
        lemma_long_path(e, q2, (d - 1) as nat)
    }
}

/// Conversely, when every VM reachable from `k` has an entry and no VM
/// reachable from `k` is its own descendant, the tree under `k` is drawable
/// within as many levels as there are entries.
pub proof fn lemma_acyclic_is_drawable(e: Seq<VmTraceEntry>, k: CollectorKey)
    requires
        reachable_have_entries(e, k),
        acyclic_from(e, k),
    ensures
        drawable(e, k, e.len()),
{
    if !drawable(e, k, e.len()) {
        let q0 = seq![k];
        assert forall|i: int, j: int| 0 <= i && j == i + 1 && j < q0.len() implies #[trigger] spawns(e, q0[i], q0[j]) by {}
        let r = lemma_long_path(e, q0, e.len());
        assert(r.no_duplicates());
        let pos = Seq::new(r.len(), |i: int| entry_pos(e, r[i], 0)->0);
        assert forall|i: int| 0 <= i < r.len() implies 0 <= #[trigger] pos[i] < e.len() && e[pos[i]].key == r[i] by {
            assert(entry_pos(e, r[i], 0) is Some);
            lemma_entry_pos(e, r[i], 0);
        }
        assert forall|a: int, b: int| 0 <= a < pos.len() && 0 <= b < pos.len() && a != b implies pos[a] != pos[b] by {
            assert(0 <= pos[a] < e.len() && e[pos[a]].key == r[a]);
            assert(0 <= pos[b] < e.len() && e[pos[b]].key == r[b]);
        }
        assert(pos.no_duplicates());
        pos.unique_seq_to_set();
        vstd::set_lib::lemma_int_range(0, e.len() as int);
        assert forall|x: int| pos.to_set().contains(x) implies vstd::set_lib::set_int_range(0, e.len() as int).contains(x) by {
            let i = choose|i: int| 0 <= i < pos.len() && pos[i] == x;
            assert(0 <= pos[i] < e.len());
        }
        vstd::set_lib::lemma_len_subset(pos.to_set(), vstd::set_lib::set_int_range(0, e.len() as int));
    }
}

/// `s` padded with spaces to 32 characters, when shorter.
pub open spec fn pad32(s: Seq<char>) -> Seq<char> {
    if s.len() < 32 {
        s + Seq::new((32 - s.len()) as nat, |i: int| ' ')
    } else {
        s
    }
}

/// The `"Spawn tree: "` heading of every line.
pub open spec fn heading() -> Seq<char> {
    seq!['S', 'p', 'a', 'w', 'n', ' ', 't', 'r', 'e', 'e', ':', ' ']
}

/// The line for VM `k` drawn with `prefix`.
pub open spec fn spec_line(e: Seq<VmTraceEntry>, k: CollectorKey, prefix: Seq<char>) -> Seq<char> {
    pad32(heading() + prefix + spec_key_str(k)) + seq![' '] + spec_key_hint(e, k)
}

/// The branch marker before a child: `"├── "`, or `"└── "` for the last child.
pub open spec fn branch(last: bool) -> Seq<char> {
    if last {
        seq!['└', '─', '─', ' ']
    } else {
        seq!['├', '─', '─', ' ']
    }
}

/// `s` with every trailing copy of `pat` removed.
pub open spec fn trim_end_all(s: Seq<char>, pat: Seq<char>) -> Seq<char>
    decreases s.len(),
{
    if pat.len() > 0 && s.len() >= pat.len() && s.subrange(s.len() - pat.len(), s.len() as int) == pat {
        trim_end_all(s.subrange(0, s.len() - pat.len()), pat)
    } else {
        s
    }
}

/// The prefix under which a node's children are drawn: nothing under the
/// root; otherwise the node's prefix without its branch markers, continued
/// by blanks after a last child and by a vertical bar otherwise.
pub open spec fn child_prefix_base(prefix: Seq<char>, is_last: bool) -> Seq<char> {
    if prefix.len() == 0 {
        Seq::empty()
    } else {
        trim_end_all(trim_end_all(prefix, branch(false)), branch(true)) + if is_last {
            seq![' ', ' ', ' ', ' ']
        } else {
            seq!['│', ' ', ' ', ' ']
        }
    }
}

/// A block that continues an ancestor's column: four blanks below a last
/// child, a bar and three blanks below any other.
pub open spec fn is_continuation(s: Seq<char>) -> bool {
    s == seq![' ', ' ', ' ', ' '] || s == seq!['│', ' ', ' ', ' ']
}

/// `s` is a run of continuation blocks, one per ancestor level.
pub open spec fn continuations(s: Seq<char>) -> bool
    decreases s.len(),
{
    if s.len() == 0 {
        true
    } else if s.len() < 4 {
        false
    } else {
        is_continuation(s.subrange(s.len() - 4, s.len() as int)) && continuations(s.subrange(0, s.len() - 4))
    }
}

proof fn lemma_trim_stops_at_continuations(base: Seq<char>, x: bool)
    requires
        continuations(base),
    ensures
        trim_end_all(base, branch(x)) == base,
{
    if base.len() >= 4 {
        let tail = base.subrange(base.len() - 4, base.len() as int);
        assert(tail[0] == ' ' || tail[0] == '│');
        assert(branch(x)[0] == '├' || branch(x)[0] == '└');
        assert(tail != branch(x));
    }
}

/// Children are drawn one level deeper than their parent: below a node
/// drawn with its ancestors' continuation blocks `base` and its branch
/// marker, each child's prefix keeps `base`, puts a continuation block
/// (four blanks below a last child, a bar and three blanks otherwise) where
/// the parent's marker was, and adds the child's own marker, four characters
/// further right.
pub proof fn lemma_children_drawn_one_level_deeper(base: Seq<char>, is_last: bool, child_last: bool)
    requires
        continuations(base),
    ensures
        ({
            let parent = base + branch(is_last);
            let child = child_prefix_base(parent, is_last) + branch(child_last);
            &&& child.len() == parent.len() + 4
            &&& child.subrange(0, base.len() as int) == base
            &&& child.subrange(base.len() as int, parent.len() as int) == (if is_last {
                seq![' ', ' ', ' ', ' ']
            } else {
                seq!['│', ' ', ' ', ' ']
            })
            &&& continuations(child.subrange(0, parent.len() as int))
            &&& child.subrange(parent.len() as int, child.len() as int) == branch(child_last)
        }),
{
    let parent = base + branch(is_last);
    lemma_trim_stops_at_continuations(base, false);
    lemma_trim_stops_at_continuations(base, true);
    assert(parent.subrange(parent.len() - 4, parent.len() as int) =~= branch(is_last));
    assert(parent.subrange(0, parent.len() - 4) =~= base);
    if is_last {
        assert(branch(true)[0] != branch(false)[0]);
        assert(trim_end_all(parent, branch(false)) == parent);
        assert(trim_end_all(parent, branch(true)) == base);
    } else {
        assert(trim_end_all(parent, branch(false)) == base);
    }
    let cont = if is_last { seq![' ', ' ', ' ', ' '] } else { seq!['│', ' ', ' ', ' '] };
    assert(child_prefix_base(parent, is_last) == base + cont);
    let child = base + cont + branch(child_last);
    assert(child.subrange(0, base.len() as int) =~= base);
    assert(child.subrange(base.len() as int, parent.len() as int) =~= cont);
    let upper = child.subrange(0, parent.len() as int);
    assert(upper =~= base + cont);
    assert(upper.subrange(upper.len() - 4, upper.len() as int) =~= cont);
    assert(upper.subrange(0, upper.len() - 4) =~= base);
    assert(child.subrange(parent.len() as int, child.len() as int) =~= branch(child_last));
}

/// The root's children are drawn at the first level: their prefix is their
/// own branch marker alone.
pub proof fn lemma_root_children_at_first_level(is_last: bool, child_last: bool)
    ensures
        child_prefix_base(Seq::empty(), is_last) + branch(child_last) == branch(child_last),
{
    assert(Seq::<char>::empty() + branch(child_last) =~= branch(child_last));
}

/// The lines for VM `k` and, depth first, its descendants, `fuel` levels deep.
pub open spec fn spec_render(e: Seq<VmTraceEntry>, k: CollectorKey, prefix: Seq<char>, is_last: bool, fuel: nat) -> Seq<Seq<char>>
    decreases fuel, 0int,
{
    if fuel == 0 {
        Seq::empty()
    } else {
        seq![spec_line(e, k, prefix)] + spec_render_children(
            e,
            spec_children(e, k),
            child_prefix_base(prefix, is_last),
            0,
            (fuel - 1) as nat,
        )
    }
}

/// The lines for children `i..` of a node, drawn under `base`.
pub open spec fn spec_render_children(e: Seq<VmTraceEntry>, cs: Seq<CollectorKey>, base: Seq<char>, i: int, fuel: nat) -> Seq<Seq<char>>
    decreases fuel, cs.len() - i,
{
    if i < 0 || i >= cs.len() {
        Seq::empty()
    } else {
        let last = i == cs.len() - 1;
        spec_render(e, cs[i], base + branch(last), last, fuel) + spec_render_children(e, cs, base, i + 1, fuel)
    }
}

/// A tree drawable within `d` levels is drawn completely at depth `d`: any
/// greater depth draws exactly the same lines.
pub proof fn lemma_render_complete(
    e: Seq<VmTraceEntry>,
    k: CollectorKey,
    prefix: Seq<char>,
    is_last: bool,
    d: nat,
    d2: nat,
)
    requires
        drawable(e, k, d),
        d <= d2,
    ensures
        spec_render(e, k, prefix, is_last, d2) == spec_render(e, k, prefix, is_last, d),
    decreases d, 0int,
{
    lemma_render_children_complete(
        e,
        spec_children(e, k),
        child_prefix_base(prefix, is_last),
        0,
        (d - 1) as nat,
        (d2 - 1) as nat,
    );
}

/// The same for the children `i..` of a node.
pub proof fn lemma_render_children_complete(
    e: Seq<VmTraceEntry>,
    cs: Seq<CollectorKey>,
    base: Seq<char>,
    i: int,
    d: nat,
    d2: nat,
)
    requires
        children_drawable(e, cs, i, d),
        d <= d2,
    ensures
        spec_render_children(e, cs, base, i, d2) == spec_render_children(e, cs, base, i, d),
    decreases d, cs.len() - i,
{
    if 0 <= i < cs.len() {
        let last = i == cs.len() - 1;
        lemma_render_complete(e, cs[i], base + branch(last), last, d, d2);
        lemma_render_children_complete(e, cs, base, i + 1, d, d2);
    }
}

/// A node's drawing starts with its own line, drawn with its prefix, and
/// is followed by its first child's line, drawn with the prefix its parent
/// passes down ([`child_prefix_base`] and the child's branch marker).
pub proof fn lemma_first_child_line(e: Seq<VmTraceEntry>, k: CollectorKey, prefix: Seq<char>, is_last: bool, fuel: nat)
    requires
        fuel >= 2,
        spec_children(e, k).len() > 0,
    ensures
        ({
            let cs = spec_children(e, k);
            let lines = spec_render(e, k, prefix, is_last, fuel);
            &&& lines.len() >= 2
            &&& lines[0] == spec_line(e, k, prefix)
            &&& lines[1] == spec_line(e, cs[0], child_prefix_base(prefix, is_last) + branch(cs.len() == 1))
        }),
{
    let cs = spec_children(e, k);
    let base = child_prefix_base(prefix, is_last);
    let last = cs.len() == 1;
    let f = (fuel - 1) as nat;
    let first = spec_render(e, cs[0], base + branch(last), last, f);
    assert(first[0] == spec_line(e, cs[0], base + branch(last)));
    let kids = spec_render_children(e, cs, base, 0, f);
    assert(kids == first + spec_render_children(e, cs, base, 1, f));
    assert(spec_render(e, k, prefix, is_last, fuel) == seq![spec_line(e, k, prefix)] + kids);
}

/// Whether any VM spawned another.
pub open spec fn has_spawns(e: Seq<VmTraceEntry>) -> bool {
    exists|i: int| 0 <= i < e.len() && (#[trigger] e[i]).children@.len() > 0
}

/// The drawing of a run's spawn tree: nothing when no VM spawned another;
/// otherwise the root VM and its descendants, depth first.  For a renderable
/// run the depth given, the number of entries, draws every chain of spawns
/// to its end ([`lemma_render_complete`]).
pub open spec fn spec_vm_tree(e: Seq<VmTraceEntry>) -> Seq<Seq<char>> {
    if has_spawns(e) {
        spec_render(e, CollectorKey { vm_id: 0, generation_id: 0 }, Seq::empty(), false, e.len())
    } else {
        Seq::empty()
    }
}

fn find_entry(entries: &Vec<VmTraceEntry>, k: &CollectorKey) -> (r: Option<usize>)
    ensures
        match r {
            Some(i) => entry_pos(entries@, *k, 0) == Some(i as int),
            None => entry_pos(entries@, *k, 0) is None,
        },
{
    let mut i: usize = 0;
    while i < entries.len()
        invariant
            i <= entries@.len(),
            entry_pos(entries@, *k, 0) == entry_pos(entries@, *k, i as int),
        decreases entries@.len() - i,
    {
        if entries[i].key.vm_id == k.vm_id && entries[i].key.generation_id == k.generation_id {
            return Some(i);
        }
        i = i + 1;
    }
    None
}

/// Whether the tree can be drawn (see [`spec_renderable`]).
pub fn is_renderable(entries: &Vec<VmTraceEntry>) -> (b: bool)
    ensures
        b == spec_renderable(entries@),
{
    let mut i: usize = 0;
    while i < entries.len()
        invariant
            i <= entries@.len(),
            forall|a: int| 0 <= a < i ==> locator_ok(#[trigger] entries@[a].locator),
        decreases entries@.len() - i,
    {
        let l = entries[i].locator;
        if source_name(l.source).is_none() || l.offset as u64 + l.length as u64 > u32::MAX as u64 {
            return false;
        }
        i = i + 1;
    }
    if !any_spawns(entries) {
        return true;
    }
    let root = CollectorKey { vm_id: 0, generation_id: 0 };
    drawable_within(entries, &root, entries.len())
}

/// Whether any VM spawned another.
fn any_spawns(entries: &Vec<VmTraceEntry>) -> (b: bool)
    ensures
        b == has_spawns(entries@),
{
    let mut i: usize = 0;
    while i < entries.len()
        invariant
            i <= entries@.len(),
            forall|a: int| 0 <= a < i ==> (#[trigger] entries@[a]).children@.len() == 0,
        decreases entries@.len() - i,
    {
        if entries[i].children.len() > 0 {
            return true;
        }
        i = i + 1;
    }
    false
}

fn drawable_within(entries: &Vec<VmTraceEntry>, k: &CollectorKey, depth: usize) -> (b: bool)
    ensures
        b == drawable(entries@, *k, depth as nat),
    decreases depth, 0int,
{
    if depth == 0 {
        return false;
    }
    match find_entry(entries, k) {
        None => false,
        Some(idx) => {
            proof {
                lemma_entry_pos(entries@, *k, 0);
            }
            children_drawable_within(entries, &entries[idx].children, 0, depth - 1)
        },
    }
}

fn children_drawable_within(entries: &Vec<VmTraceEntry>, cs: &Vec<CollectorKey>, i: usize, depth: usize) -> (b: bool)
    requires
        i <= cs@.len(),
    ensures
        b == children_drawable(entries@, cs@, i as int, depth as nat),
    decreases depth, cs@.len() - i,
{
    if i >= cs.len() {
        return true;
    }
    if !drawable_within(entries, &cs[i], depth) {
        return false;
    }
    children_drawable_within(entries, cs, i + 1, depth)
}

fn trim_end(s: &mut Vec<char>, pat: &Vec<char>)
    requires
        pat@.len() == 4,
    ensures
        final(s)@ == trim_end_all(old(s)@, pat@),
{
    loop
        invariant
            pat@.len() == 4,
            trim_end_all(s@, pat@) == trim_end_all(old(s)@, pat@),
        decreases s@.len(),
    {
        let n = s.len();
        if n < 4 {
            return;
        }
        let matches = s[n - 4] == pat[0] && s[n - 3] == pat[1] && s[n - 2] == pat[2] && s[n - 1] == pat[3];
        assert(matches == (s@.subrange(n - 4, n as int) =~= pat@));
        if !matches {
            return;
        }
        s.truncate(n - 4);
        assert(s@ =~= old(s)@.subrange(0, 0).add(s@));
    }
}

fn branch_chars(last: bool) -> (r: Vec<char>)
    ensures
        r@ == branch(last),
{
    let mut r: Vec<char> = Vec::new();
    if last {
        r.push('└');
    } else {
        r.push('├');
    }
    r.push('─');
    r.push('─');
    r.push(' ');
    assert(r@ =~= branch(last));
    r
}

fn to_string(chars: &Vec<char>) -> (s: String)
    ensures
        s@ == chars@,
{
    let mut s = String::new();
    let mut i: usize = 0;
    while i < chars.len()
        invariant
            i <= chars@.len(),
            s@ == chars@.subrange(0, i as int),
        decreases chars@.len() - i,
    {
        push_char(&mut s, chars[i]);
        i = i + 1;
        assert(s@ =~= chars@.subrange(0, i as int));
    }
    assert(chars@.subrange(0, i as int) =~= chars@);
    s
}

fn line_for(entries: &Vec<VmTraceEntry>, k: &CollectorKey, prefix: &Vec<char>) -> (r: Vec<char>)
    requires
        locators_ok(entries@),
        entry_pos(entries@, *k, 0) is Some,
    ensures
        r@ == spec_line(entries@, *k, prefix@),
{
    let mut r: Vec<char> = Vec::new();
    r.push('S'); r.push('p'); r.push('a'); r.push('w'); r.push('n'); r.push(' ');
    r.push('t'); r.push('r'); r.push('e'); r.push('e'); r.push(':'); r.push(' ');
    assert(r@ =~= heading());
    push_str_chars(&mut r, prefix.as_slice());
    push_decimal_chars(&mut r, k.vm_id);
    if k.generation_id != 0 {
        r.push('/');
        push_decimal_chars(&mut r, k.generation_id);
    }
    assert(r@ =~= heading() + prefix@ + spec_key_str(*k));
    let ghost unpadded = r@;
    while r.len() < 32
        invariant
            unpadded.len() <= r@.len(),
            r@.len() <= 32 || r@ == unpadded,
            r@ == unpadded + Seq::new((r@.len() - unpadded.len()) as nat, |i: int| ' '),
        decreases 32 - r@.len(),
    {
        r.push(' ');
        assert(r@ =~= unpadded + Seq::new((r@.len() - unpadded.len()) as nat, |i: int| ' '));
    }
    assert(r@ =~= pad32(unpadded));
    r.push(' ');
    proof {
        lemma_entry_pos(entries@, *k, 0);
    }
    match find_entry(entries, k) {
        Some(i) => {
            let h = hint_chars(&entries[i].locator);
            push_str_chars(&mut r, h.as_slice());
        },
        None => {},
    }
    assert(r@ =~= spec_line(entries@, *k, prefix@));
    r
}

fn render(
    entries: &Vec<VmTraceEntry>,
    k: &CollectorKey,
    prefix: &Vec<char>,
    is_last: bool,
    fuel: usize,
    out: &mut Vec<String>,
)
    requires
        locators_ok(entries@),
        drawable(entries@, *k, fuel as nat),
    ensures
        final(out)@.len() == old(out)@.len() + spec_render(entries@, *k, prefix@, is_last, fuel as nat).len(),
        forall|i: int| 0 <= i < old(out)@.len() ==> #[trigger] final(out)@[i] == old(out)@[i],
        forall|i: int| 0 <= i < spec_render(entries@, *k, prefix@, is_last, fuel as nat).len()
            ==> (#[trigger] final(out)@[old(out)@.len() + i])@ == spec_render(entries@, *k, prefix@, is_last, fuel as nat)[i],
    decreases fuel, 0int,
{
    if fuel == 0 {
        return;
    }
    let line = line_for(entries, k, prefix);
    let ghost start = out@;
    out.push(to_string(&line));
    let ghost pushed = out@;
    let mut base: Vec<char> = Vec::new();
    if prefix.len() > 0 {
        base = vstd::slice::slice_to_vec(prefix.as_slice());
        trim_end(&mut base, &branch_chars(false));
        trim_end(&mut base, &branch_chars(true));
        if is_last {
            base.push(' ');
        } else {
            base.push('│');
        }
        base.push(' ');
        base.push(' ');
        base.push(' ');
    }
    assert(base@ =~= child_prefix_base(prefix@, is_last));
    proof {
        lemma_entry_pos(entries@, *k, 0);
    }
    let idx = match find_entry(entries, k) {
        Some(i) => i,
        None => 0,
    };
    let cs = &entries[idx].children;
    assert(cs@ == spec_children(entries@, *k));
    render_children(entries, cs, &base, 0, fuel - 1, out);
    proof {
        let r = spec_render(entries@, *k, prefix@, is_last, fuel as nat);
        let kids = spec_render_children(entries@, cs@, base@, 0, (fuel - 1) as nat);
        assert(r == seq![spec_line(entries@, *k, prefix@)] + kids);
        assert forall|i: int| 0 <= i < r.len() implies (#[trigger] out@[start.len() + i])@ == r[i] by {
            if i == 0 {
                assert(out@[start.len() as int] == pushed[start.len() as int]);
            } else {
                assert(out@[pushed.len() + (i - 1)]@ == kids[i - 1]);
            }
        }
    }
}

fn render_children(
    entries: &Vec<VmTraceEntry>,
    cs: &Vec<CollectorKey>,
    base: &Vec<char>,
    i: usize,
    fuel: usize,
    out: &mut Vec<String>,
)
    requires
        locators_ok(entries@),
        children_drawable(entries@, cs@, i as int, fuel as nat),
        i <= cs@.len(),
    ensures
        final(out)@.len() == old(out)@.len() + spec_render_children(entries@, cs@, base@, i as int, fuel as nat).len(),
        forall|j: int| 0 <= j < old(out)@.len() ==> #[trigger] final(out)@[j] == old(out)@[j],
        forall|j: int| 0 <= j < spec_render_children(entries@, cs@, base@, i as int, fuel as nat).len()
            ==> (#[trigger] final(out)@[old(out)@.len() + j])@ == spec_render_children(entries@, cs@, base@, i as int, fuel as nat)[j],
    decreases fuel, cs@.len() - i,
{
    if i >= cs.len() {
        return;
    }
    let last = i == cs.len() - 1;
    let mut child_prefix = vstd::slice::slice_to_vec(base.as_slice());
    let b = branch_chars(last);
    push_str_chars(&mut child_prefix, b.as_slice());
    let ghost before = out@;
    render(entries, &cs[i], &child_prefix, last, fuel, out);
    let ghost mid = out@;
    render_children(entries, cs, base, i + 1, fuel, out);
    proof {
        let first = spec_render(entries@, cs@[i as int], base@ + branch(last), last, fuel as nat);
        let rest = spec_render_children(entries@, cs@, base@, i + 1, fuel as nat);
        let all = spec_render_children(entries@, cs@, base@, i as int, fuel as nat);
        assert(child_prefix@ == base@ + branch(last));
        assert(all == first + rest);
        assert forall|j: int| 0 <= j < all.len() implies (#[trigger] out@[before.len() + j])@ == all[j] by {
            if j < first.len() {
                assert(out@[before.len() + j] == mid[before.len() + j]);
            } else {
                assert(out@[mid.len() + (j - first.len())]@ == rest[j - first.len()]);
            }
        }
    }
}

/// Draws a run's spawn tree, one line per VM, for printing: nothing when no
/// VM spawned another; otherwise the root VM and, depth first, its
/// descendants, each line giving the VM's key and where its program came
/// from, indented by tree branches.
pub fn vm_tree_lines(entries: &Vec<VmTraceEntry>) -> (r: Vec<String>)
    requires
        spec_renderable(entries@),
    ensures
        r@.len() == spec_vm_tree(entries@).len(),
        forall|i: int| 0 <= i < r@.len() ==> (#[trigger] r@[i])@ == spec_vm_tree(entries@)[i],
{
    let mut out: Vec<String> = Vec::new();
    let any = any_spawns(entries);
    if !any {
        return out;
    }
    let root = CollectorKey { vm_id: 0, generation_id: 0 };
    let prefix: Vec<char> = Vec::new();
    render(entries, &root, &prefix, false, entries.len(), &mut out);
    assert(prefix@ =~= Seq::<char>::empty());
    assert forall|i: int| 0 <= i < out@.len() implies (#[trigger] out@[i])@ == spec_vm_tree(entries@)[i] by {
        assert(out@[0 + i] == out@[i]);
    }
    out
}

} // verus!
