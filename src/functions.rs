use vstd::prelude::*;
use vstd::string::*;
use crate::text::chars_of;
use crate::types::{change_paths, label_prefixes, Change, Changes, Config, Label};

verus! {

/// After the first segment, a segment between slashes counts as a component
/// unless it is empty (from a trailing or doubled `/`) or the
/// current-directory marker `.`.
pub open spec fn is_component(seg: Seq<char>) -> bool {
    seg.len() > 0 && seg != seq!['.']
}

/// The component that stands for the root of an absolute path.
pub open spec fn root_component() -> Seq<char> {
    seq!['/']
}

/// Closes the open segment `cur` at a `/`. The first segment always yields a
/// component: the root where it is empty (the path starts with `/`), else the
/// segment itself, a leading `.` included. Later segments are kept only when
/// they are components.
pub open spec fn close_segment(done: Seq<Seq<char>>, cur: Seq<char>, first: bool) -> Seq<
    Seq<char>,
> {
    if first {
        done.push(if cur.len() == 0 { root_component() } else { cur })
    } else if is_component(cur) {
        done.push(cur)
    } else {
        done
    }
}

/// Closes the segment that ends the path. Where the path holds no `/`, it is
/// its only component, unless the path is empty.
pub open spec fn close_last(done: Seq<Seq<char>>, cur: Seq<char>, first: bool) -> Seq<Seq<char>> {
    if first {
        if cur.len() == 0 {
            done
        } else {
            done.push(cur)
        }
    } else if is_component(cur) {
        done.push(cur)
    } else {
        done
    }
}

/// Reads a path from the left: the components completed so far, the segment
/// still open after the last `/`, and whether no `/` has been read yet.
pub open spec fn scan(s: Seq<char>) -> (Seq<Seq<char>>, Seq<char>, bool)
    decreases s.len(),
{
    if s.len() == 0 {
        (Seq::empty(), Seq::empty(), true)
    } else {
        let prev = scan(s.drop_last());
        if s.last() == '/' {
            (close_segment(prev.0, prev.1, prev.2), Seq::empty(), false)
        } else {
            (prev.0, prev.1.push(s.last()), prev.2)
        }
    }
}

/// The components of a path, in order: a leading root for an absolute path or
/// a leading `.` for a path that starts with one, then the non-empty segments
/// other than `.`.
pub open spec fn components(s: Seq<char>) -> Seq<Seq<char>> {
    close_last(scan(s).0, scan(s).1, scan(s).2)
}

/// `prefix` names a directory (or file) that `path` lies in: its components
/// begin the components of `path`. An empty prefix lies over every path.
pub open spec fn is_path_prefix(prefix: Seq<char>, path: Seq<char>) -> bool {
    let p = components(prefix);
    let c = components(path);
    p.len() <= c.len() && c.subrange(0, p.len() as int) == p
}

/// Some prefix of a rule lies over some changed path.
pub open spec fn rule_matches(prefixes: Seq<Seq<char>>, paths: Seq<Seq<char>>) -> bool {
    exists|i: int, j: int|
        0 <= i < prefixes.len() && 0 <= j < paths.len() && #[trigger] is_path_prefix(
            prefixes[i],
            paths[j],
        )
}

/// The names of the rules that match, in rule order, one entry per matching rule.
pub open spec fn matched_labels(labels: Seq<Label>, paths: Seq<Seq<char>>) -> Seq<Seq<char>>
    decreases labels.len(),
{
    if labels.len() == 0 {
        Seq::empty()
    } else {
        let prev = matched_labels(labels.drop_last(), paths);
        if rule_matches(label_prefixes(labels.last()), paths) {
            prev.push(labels.last().name@)
        } else {
            prev
        }
    }
}

pub open spec fn char_vecs(v: Seq<Vec<char>>) -> Seq<Seq<char>> {
    Seq::new(v.len(), |i: int| v[i]@)
}

pub open spec fn strings(v: Seq<String>) -> Seq<Seq<char>> {
    Seq::new(v.len(), |i: int| v[i]@)
}

/// A label name appears in the result of matching exactly when some rule with
/// that name has a prefix lying over some changed path. Rules are judged each
/// on its own, so rules with overlapping prefixes all contribute.
pub proof fn lemma_label_appears_iff(labels: Seq<Label>, paths: Seq<Seq<char>>, name: Seq<char>)
    ensures
        matched_labels(labels, paths).contains(name) <==> exists|i: int|
            0 <= i < labels.len() && #[trigger] labels[i].name@ == name && rule_matches(
                label_prefixes(labels[i]),
                paths,
            ),
    decreases labels.len(),
{
    if labels.len() > 0 {
        let init = labels.drop_last();
        lemma_label_appears_iff(init, paths, name);
        let prev = matched_labels(init, paths);
        let last = labels.len() - 1;
        if matched_labels(labels, paths).contains(name) {
            if prev.contains(name) {
                let i = choose|i: int|
                    0 <= i < init.len() && #[trigger] init[i].name@ == name && rule_matches(
                        label_prefixes(init[i]),
                        paths,
                    );
                assert(labels[i] == init[i]);
            } else {
                let k = choose|k: int| 0 <= k < matched_labels(labels, paths).len() && matched_labels(labels, paths)[k] == name;
                if !rule_matches(label_prefixes(labels.last()), paths) {
                    assert(prev[k] == name);
                }
                assert(labels[last].name@ == name);
            }
        }
        if exists|i: int|
            0 <= i < labels.len() && #[trigger] labels[i].name@ == name && rule_matches(
                label_prefixes(labels[i]),
                paths,
            ) {
            let i = choose|i: int|
                0 <= i < labels.len() && #[trigger] labels[i].name@ == name && rule_matches(
                    label_prefixes(labels[i]),
                    paths,
                );
            if i == last {
                let out = matched_labels(labels, paths);
                assert(out[out.len() - 1] == name);
            } else {
                assert(init[i] == labels[i]);
                let k = choose|k: int| 0 <= k < prev.len() && prev[k] == name;
                let out = matched_labels(labels, paths);
                assert(out[k] == name);
            }
        }
    }
}

/// Prefixes chain: a prefix of a prefix of a path is a prefix of that path.
pub proof fn lemma_path_prefix_transitive(p: Seq<char>, q: Seq<char>, c: Seq<char>)
    requires
        is_path_prefix(p, q),
        is_path_prefix(q, c),
    ensures
        is_path_prefix(p, c),
{
    let pc = components(p);
    let qc = components(q);
    let cc = components(c);
    assert(cc.subrange(0, pc.len() as int) =~= cc.subrange(0, qc.len() as int).subrange(
        0,
        pc.len() as int,
    ));
}

/// Matching a configuration made of two parts gives the results of the parts, in order.
pub proof fn lemma_matched_concat(a: Seq<Label>, b: Seq<Label>, paths: Seq<Seq<char>>)
    ensures
        matched_labels(a + b, paths) == matched_labels(a, paths) + matched_labels(b, paths),
    decreases b.len(),
{
    if b.len() == 0 {
        assert(a + b =~= a);
        assert(matched_labels(a, paths) + matched_labels(b, paths) =~= matched_labels(a, paths));
    } else {
        lemma_matched_concat(a, b.drop_last(), paths);
        assert((a + b).drop_last() =~= a + b.drop_last());
        assert((a + b).last() == b.last());
        let ma = matched_labels(a, paths);
        let mb = matched_labels(b.drop_last(), paths);
        if rule_matches(label_prefixes(b.last()), paths) {
            assert(ma + mb.push(b.last().name@) =~= (ma + mb).push(b.last().name@));
        }
    }
}

/// Where a prefix of rule `i` lies over a prefix of rule `j`, and that one
/// lies over a changed path, both rules match. Each contributes an entry of
/// its own, in rule order, whichever of the two comes first.
pub proof fn lemma_overlapping_rules_both_match(
    labels: Seq<Label>,
    paths: Seq<Seq<char>>,
    i: int,
    j: int,
    a: int,
    b: int,
    k: int,
)
    requires
        0 <= i < labels.len(),
        0 <= j < labels.len(),
        i != j,
        0 <= a < label_prefixes(labels[i]).len(),
        0 <= b < label_prefixes(labels[j]).len(),
        0 <= k < paths.len(),
        is_path_prefix(label_prefixes(labels[i])[a], label_prefixes(labels[j])[b]),
        is_path_prefix(label_prefixes(labels[j])[b], paths[k]),
    ensures
        rule_matches(label_prefixes(labels[i]), paths),
        rule_matches(label_prefixes(labels[j]), paths),
        exists|x: int, y: int|
            0 <= x < matched_labels(labels, paths).len() && 0 <= y < matched_labels(
                labels,
                paths,
            ).len() && (x < y <==> i < j) && matched_labels(labels, paths)[x] == labels[i].name@
                && matched_labels(labels, paths)[y] == labels[j].name@,
{
    lemma_path_prefix_transitive(label_prefixes(labels[i])[a], label_prefixes(labels[j])[b], paths[k]);
    assert(is_path_prefix(label_prefixes(labels[i])[a], paths[k]));
    assert(is_path_prefix(label_prefixes(labels[j])[b], paths[k]));
    assert(rule_matches(label_prefixes(labels[i]), paths));
    assert(rule_matches(label_prefixes(labels[j]), paths));
    let lo = if i < j { i } else { j };
    let hi = if i < j { j } else { i };
    let front = labels.subrange(0, lo);
    let mid = labels.subrange(lo + 1, hi);
    let back = labels.subrange(hi + 1, labels.len() as int);
    let l1 = seq![labels[lo]];
    let l2 = seq![labels[hi]];
    assert(labels =~= front + l1 + mid + l2 + back);
    lemma_matched_concat(front + l1 + mid + l2, back, paths);
    lemma_matched_concat(front + l1 + mid, l2, paths);
    lemma_matched_concat(front + l1, mid, paths);
    lemma_matched_concat(front, l1, paths);
    assert(l1.drop_last() =~= Seq::<Label>::empty());
    assert(l2.drop_last() =~= Seq::<Label>::empty());
    assert(matched_labels(Seq::<Label>::empty(), paths) == Seq::<Seq<char>>::empty());
    assert(l1.last() == labels[lo]);
    assert(l2.last() == labels[hi]);
    assert(rule_matches(label_prefixes(labels[lo]), paths));
    assert(rule_matches(label_prefixes(labels[hi]), paths));
    let mf = matched_labels(front, paths);
    let mm = matched_labels(mid, paths);
    let m1 = matched_labels(l1, paths);
    let m2 = matched_labels(l2, paths);
    assert(m1 =~= seq![labels[lo].name@]);
    assert(m2 =~= seq![labels[hi].name@]);
    let out = matched_labels(labels, paths);
    assert(out == mf + m1 + mm + m2 + matched_labels(back, paths));
    let px = mf.len() as int;
    let py = (mf.len() + 1 + mm.len()) as int;
    assert(out[px] == labels[lo].name@);
    assert(out[py] == labels[hi].name@);
    if i < j {
        assert(out[px] == labels[i].name@ && out[py] == labels[j].name@);
    } else {
        assert(out[py] == labels[i].name@ && out[px] == labels[j].name@);
    }
}

fn is_component_exec(seg: &Vec<char>) -> (r: bool)
    ensures
        r == is_component(seg@),
{
    if seg.len() == 0 {
        false
    } else if seg.len() == 1 && seg[0] == '.' {
        assert(seg@ =~= seq!['.']);
        false
    } else {
        assert(seg@ != seq!['.']) by {
            if seg@ == seq!['.'] {
                assert(seg@.len() == 1);
                assert(seg@[0] == '.');
            }
        }
        true
    }
}

/// Splits a path into its components.
fn components_of(s: &str) -> (r: Vec<Vec<char>>)
    ensures
        char_vecs(r@) == components(s@),
{
    let chars = chars_of(s);
    let mut done: Vec<Vec<char>> = Vec::new();
    let mut cur: Vec<char> = Vec::new();
    let mut first = true;
    let mut i: usize = 0;
    assert(char_vecs(done@) =~= Seq::<Seq<char>>::empty());
    assert(s@.subrange(0, 0) =~= Seq::<char>::empty());
    while i < chars.len()
        invariant
            chars@ == s@,
            i <= chars.len(),
            char_vecs(done@) == scan(s@.subrange(0, i as int)).0,
            cur@ == scan(s@.subrange(0, i as int)).1,
            first == scan(s@.subrange(0, i as int)).2,
        decreases chars.len() - i,
    {
        let c = chars[i];
        let ghost t = s@.subrange(0, i + 1);
        assert(t.drop_last() =~= s@.subrange(0, i as int));
        assert(t.last() == c);
        if c == '/' {
            let ghost before = char_vecs(done@);
            let ghost cv = cur@;
            if first {
                if cur.len() == 0 {
                    let mut root: Vec<char> = Vec::new();
                    root.push('/');
                    assert(root@ =~= root_component());
                    done.push(root);
                    assert(char_vecs(done@) =~= before.push(root_component()));
                } else {
                    done.push(cur);
                    assert(char_vecs(done@) =~= before.push(cv));
                }
            } else if is_component_exec(&cur) {
                done.push(cur);
                assert(char_vecs(done@) =~= before.push(cv));
            }
            cur = Vec::new();
            first = false;
        } else {
            cur.push(c);
        }
        i = i + 1;
    }
    assert(s@.subrange(0, chars.len() as int) =~= s@);
    let ghost before = char_vecs(done@);
    let ghost cv = cur@;
    if first {
        if cur.len() > 0 {
            done.push(cur);
            assert(char_vecs(done@) =~= before.push(cv));
        }
    } else if is_component_exec(&cur) {
        done.push(cur);
        assert(char_vecs(done@) =~= before.push(cv));
    }
    done
}

fn chars_equal(a: &Vec<char>, b: &Vec<char>) -> (r: bool)
    ensures
        r == (a@ == b@),
{
    if a.len() != b.len() {
        return false;
    }
    let mut i: usize = 0;
    while i < a.len()
        invariant
            a.len() == b.len(),
            i <= a.len(),
            forall|k: int| 0 <= k < i ==> a@[k] == b@[k],
        decreases a.len() - i,
    {
        if a[i] != b[i] {
            return false;
        }
        i = i + 1;
    }
    assert(a@ =~= b@);
    true
}

/// Whether the components `p` begin the components `c`.
fn starts_with_components(p: &Vec<Vec<char>>, c: &Vec<Vec<char>>) -> (r: bool)
    ensures
        r == (p@.len() <= c@.len() && char_vecs(c@).subrange(0, p@.len() as int) == char_vecs(
            p@,
        )),
{
    if p.len() > c.len() {
        return false;
    }
    let mut i: usize = 0;
    while i < p.len()
        invariant
            i <= p.len() <= c.len(),
            forall|k: int| 0 <= k < i ==> c@[k]@ == p@[k]@,
        decreases p.len() - i,
    {
        if !chars_equal(&p[i], &c[i]) {
            assert(char_vecs(c@).subrange(0, p@.len() as int)[i as int] != char_vecs(p@)[i as int]);
            return false;
        }
        i = i + 1;
    }
    assert(char_vecs(c@).subrange(0, p@.len() as int) =~= char_vecs(p@));
    true
}

/// Whether some prefix of `label` lies over some changed path, given the
/// components of each changed path.
fn rule_applies(label: &Label, changes: &Vec<Change>, change_comps: &Vec<Vec<Vec<char>>>) -> (r:
    bool)
    requires
        change_comps@.len() == changes@.len(),
        forall|j: int|
            0 <= j < changes@.len() ==> char_vecs(#[trigger] change_comps@[j]@) == components(
                changes@[j].new_path@,
            ),
    ensures
        r == rule_matches(label_prefixes(*label), change_paths(changes@)),
{
    let ghost prefixes = label_prefixes(*label);
    let ghost paths = change_paths(changes@);
    let mut i: usize = 0;
    while i < label.paths.len()
        invariant
            i <= label.paths@.len(),
            prefixes == label_prefixes(*label),
            paths == change_paths(changes@),
            change_comps@.len() == changes@.len(),
            forall|j: int|
                0 <= j < changes@.len() ==> char_vecs(#[trigger] change_comps@[j]@) == components(
                    changes@[j].new_path@,
                ),
            forall|a: int, b: int|
                0 <= a < i && 0 <= b < paths.len() ==> !#[trigger] is_path_prefix(
                    prefixes[a],
                    paths[b],
                ),
        decreases label.paths@.len() - i,
    {
        let pc = components_of(label.paths[i].as_str());
        let mut j: usize = 0;
        while j < change_comps.len()
            invariant
                i < label.paths@.len(),
                j <= change_comps@.len(),
                char_vecs(pc@) == components(prefixes[i as int]),
                prefixes == label_prefixes(*label),
                paths == change_paths(changes@),
                change_comps@.len() == changes@.len(),
                forall|j: int|
                    0 <= j < changes@.len() ==> char_vecs(#[trigger] change_comps@[j]@)
                        == components(changes@[j].new_path@),
                forall|b: int| 0 <= b < j ==> !#[trigger] is_path_prefix(prefixes[i as int], paths[b]),
            decreases change_comps@.len() - j,
        {
            if starts_with_components(&pc, &change_comps[j]) {
                assert(is_path_prefix(prefixes[i as int], paths[j as int]));
                return true;
            }
            j = j + 1;
        }
        i = i + 1;
    }
    false
}

/// The labels whose rules match the changed paths: each rule, in
/// configuration order, contributes its name once when one of its prefixes
/// lies over one of the changed paths. Names are not deduplicated.
pub fn filter_labels(config: Config, changes: Changes) -> (r: Vec<String>)
    ensures
        strings(r@) == matched_labels(config.labels@, change_paths(changes.changes@)),
{
    let ghost paths = change_paths(changes.changes@);
    let mut change_comps: Vec<Vec<Vec<char>>> = Vec::new();
    let mut j: usize = 0;
    while j < changes.changes.len()
        invariant
            j <= changes.changes@.len(),
            change_comps@.len() == j,
            forall|b: int|
                0 <= b < j ==> char_vecs(#[trigger] change_comps@[b]@) == components(
                    changes.changes@[b].new_path@,
                ),
        decreases changes.changes@.len() - j,
    {
        let comps = components_of(changes.changes[j].new_path.as_str());
        change_comps.push(comps);
        j = j + 1;
    }
    let mut out: Vec<String> = Vec::new();
    let mut i: usize = 0;
    assert(config.labels@.subrange(0, 0) =~= Seq::<Label>::empty());
    assert(strings(out@) =~= Seq::<Seq<char>>::empty());
    while i < config.labels.len()
        invariant
            i <= config.labels@.len(),
            paths == change_paths(changes.changes@),
            change_comps@.len() == changes.changes@.len(),
            forall|b: int|
                0 <= b < changes.changes@.len() ==> char_vecs(#[trigger] change_comps@[b]@)
                    == components(changes.changes@[b].new_path@),
            strings(out@) == matched_labels(config.labels@.subrange(0, i as int), paths),
        decreases config.labels@.len() - i,
    {
        let label = &config.labels[i];
        let ghost upto = config.labels@.subrange(0, i + 1);
        assert(upto.drop_last() =~= config.labels@.subrange(0, i as int));
        assert(upto.last() == *label);
        if rule_applies(label, &changes.changes, &change_comps) {
            let ghost before = strings(out@);
            let name = label.name.clone();
            out.push(name);
            assert(strings(out@) =~= before.push(label.name@));
        }
        i = i + 1;
    }
    assert(config.labels@.subrange(0, config.labels@.len() as int) =~= config.labels@);
    out
}

} // verus!
