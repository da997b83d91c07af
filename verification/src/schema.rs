//! The schema accumulator: fragments are merged into one root document.
//!
//! Each pushed fragment lands in the document's `definitions` object under its
//! title, a synthetic property slot `t<N>` referring to that title is added in
//! push order, and the fragment's own nested `definitions` are hoisted to the
//! top level. Hoisting does not namespace: a nested name colliding with an
//! existing definition silently overwrites it (documented lossy-merge
//! behaviour).

use vstd::prelude::*;

verus! {

/// Raised when a fragment is not valid JSON or lacks a string `title`.
#[derive(Debug, Clone, PartialEq, Eq)]
pub struct SchemaParseError;

/// The character sequences of a list of (name, text) entry pairs.
pub open spec fn entry_views(es: Seq<(String, String)>) -> Seq<(Seq<char>, Seq<char>)> {
    es.map_values(|e: (String, String)| (e.0@, e.1@))
}

/// Whether some entry of `defs` is named `k`.
pub open spec fn has_key(defs: Seq<(Seq<char>, Seq<char>)>, k: Seq<char>) -> bool {
    exists|i: int| 0 <= i < defs.len() && defs[i].0 == k
}

/// No two entries of `defs` share a name.
pub open spec fn unique_keys(defs: Seq<(Seq<char>, Seq<char>)>) -> bool {
    forall|i: int, j: int| 0 <= i < j < defs.len() ==> defs[i].0 != defs[j].0
}

/// The position of the first entry of `defs` named `k` (meaningful only when
/// `has_key(defs, k)`).
pub open spec fn key_index(defs: Seq<(Seq<char>, Seq<char>)>, k: Seq<char>) -> int
    decreases defs.len(),
{
    if defs.len() == 0 {
        0
    } else if defs[0].0 == k {
        0
    } else {
        1 + key_index(defs.drop_first(), k)
    }
}

/// Insert-or-replace: an existing entry named `k` is replaced in place,
/// keeping its position; otherwise the new entry is appended.
pub open spec fn upsert(
    defs: Seq<(Seq<char>, Seq<char>)>,
    k: Seq<char>,
    v: Seq<char>,
) -> Seq<(Seq<char>, Seq<char>)> {
    if has_key(defs, k) {
        defs.update(key_index(defs, k), (k, v))
    } else {
        defs.push((k, v))
    }
}

/// Upserts each nested definition in turn, in object order.
pub open spec fn hoist(
    defs: Seq<(Seq<char>, Seq<char>)>,
    nested: Seq<(Seq<char>, Seq<char>)>,
) -> Seq<(Seq<char>, Seq<char>)>
    decreases nested.len(),
{
    if nested.len() == 0 {
        defs
    } else {
        hoist(upsert(defs, nested[0].0, nested[0].1), nested.drop_first())
    }
}

/// The entry list read as a map from name to text (later entries win, which
/// is moot under `unique_keys`).
pub open spec fn defs_map(defs: Seq<(Seq<char>, Seq<char>)>) -> Map<Seq<char>, Seq<char>>
    decreases defs.len(),
{
    if defs.len() == 0 {
        Map::empty()
    } else {
        defs_map(defs.drop_last()).insert(defs.last().0, defs.last().1)
    }
}

/// A sequence of map insertions, in order.
pub open spec fn hoisted_map(
    m: Map<Seq<char>, Seq<char>>,
    nested: Seq<(Seq<char>, Seq<char>)>,
) -> Map<Seq<char>, Seq<char>>
    decreases nested.len(),
{
    if nested.len() == 0 {
        m
    } else {
        hoisted_map(m.insert(nested[0].0, nested[0].1), nested.drop_first())
    }
}

/// The abstract state of the accumulator: the definition entries in document
/// order, the pushed titles in push order (property slot `t<i>` refers to
/// `props[i]`), and the raw fragment texts in push order.
#[verifier::ext_equal]
pub struct SchemaModel {
    pub defs: Seq<(Seq<char>, Seq<char>)>,
    pub props: Seq<Seq<char>>,
    pub raws: Seq<(Seq<char>, Seq<char>)>,
}

/// The state of a fresh accumulator.
pub open spec fn empty_model() -> SchemaModel {
    SchemaModel { defs: Seq::empty(), props: Seq::empty(), raws: Seq::empty() }
}

/// The state after merging one decomposed fragment into `m`.
pub open spec fn push_model(
    m: SchemaModel,
    title: Seq<char>,
    text: Seq<char>,
    nested: Seq<(Seq<char>, Seq<char>)>,
    raw: Seq<char>,
) -> SchemaModel {
    SchemaModel {
        defs: hoist(upsert(m.defs, title, text), nested),
        props: m.props.push(title),
        raws: m.raws.push((title, raw)),
    }
}

/// One fragment's decomposition, at the spec level.
#[verifier::ext_equal]
pub struct FragModel {
    pub title: Seq<char>,
    pub text: Seq<char>,
    pub nested: Seq<(Seq<char>, Seq<char>)>,
    pub raw: Seq<char>,
}

/// The state after merging a whole sequence of fragments into `m`, in order.
pub open spec fn push_all(m: SchemaModel, frags: Seq<FragModel>) -> SchemaModel
    decreases frags.len(),
{
    if frags.len() == 0 {
        m
    } else {
        push_all(
            push_model(m, frags[0].title, frags[0].text, frags[0].nested, frags[0].raw),
            frags.drop_first(),
        )
    }
}

proof fn lemma_key_index(defs: Seq<(Seq<char>, Seq<char>)>, k: Seq<char>)
    requires
        has_key(defs, k),
    ensures
        0 <= key_index(defs, k) < defs.len(),
        defs[key_index(defs, k)].0 == k,
    decreases defs.len(),
{
    if defs[0].0 == k {
    } else {
        let i = choose|i: int| 0 <= i < defs.len() && defs[i].0 == k;
        assert(defs.drop_first()[i - 1].0 == k);
        lemma_key_index(defs.drop_first(), k);
    }
}

proof fn lemma_key_index_unique_pos(defs: Seq<(Seq<char>, Seq<char>)>, k: Seq<char>, i: int)
    requires
        0 <= i < defs.len(),
        defs[i].0 == k,
        forall|m: int| 0 <= m < i ==> defs[m].0 != k,
    ensures
        has_key(defs, k),
        key_index(defs, k) == i,
    decreases defs.len(),
{
    if i == 0 {
    } else {
        assert(forall|m: int| 0 <= m < i - 1 ==> defs.drop_first()[m].0 != k);
        lemma_key_index_unique_pos(defs.drop_first(), k, i - 1);
    }
}

/// Replacing the entry at `k`'s own position keeps `defs_map` in step with a
/// plain map insertion.
proof fn lemma_defs_map_update(defs: Seq<(Seq<char>, Seq<char>)>, i: int, k: Seq<char>, v: Seq<char>)
    requires
        unique_keys(defs),
        0 <= i < defs.len(),
        defs[i].0 == k,
    ensures
        defs_map(defs.update(i, (k, v))) == defs_map(defs).insert(k, v),
    decreases defs.len(),
{
    let updated = defs.update(i, (k, v));
    if i == defs.len() - 1 {
        assert(updated.drop_last() =~= defs.drop_last());
        assert(defs_map(defs).insert(k, v) =~= defs_map(defs.drop_last()).insert(k, v));
    } else {
        assert(updated.drop_last() =~= defs.drop_last().update(i, (k, v)));
        assert(unique_keys(defs.drop_last()));
        lemma_defs_map_update(defs.drop_last(), i, k, v);
        // the last entry's name differs from k, so the two insertions commute
        assert(defs.last().0 != k);
        assert(defs_map(defs.drop_last()).insert(k, v).insert(defs.last().0, defs.last().1)
            =~= defs_map(defs.drop_last()).insert(defs.last().0, defs.last().1).insert(k, v));
    }
}

/// What one upsert does: the map gains (or replaces) exactly the binding at
/// `k`, uniqueness of names is kept, and length grows only on a fresh name.
pub proof fn lemma_upsert(defs: Seq<(Seq<char>, Seq<char>)>, k: Seq<char>, v: Seq<char>)
    requires
        unique_keys(defs),
    ensures
        unique_keys(upsert(defs, k, v)),
        defs_map(upsert(defs, k, v)) == defs_map(defs).insert(k, v),
        upsert(defs, k, v).len() == if has_key(defs, k) {
            defs.len() as int
        } else {
            defs.len() + 1 as int
        },
        forall|k2: Seq<char>|
            has_key(upsert(defs, k, v), k2) == (has_key(defs, k2) || k2 == k),
{
    if has_key(defs, k) {
        lemma_key_index(defs, k);
        let i = key_index(defs, k);
        lemma_defs_map_update(defs, i, k, v);
        let u = defs.update(i, (k, v));
        assert forall|k2: Seq<char>|
            has_key(u, k2) == (has_key(defs, k2) || k2 == k) by {
            if has_key(u, k2) {
                let j = choose|j: int| 0 <= j < u.len() && u[j].0 == k2;
                if j == i {
                } else {
                    assert(defs[j].0 == k2);
                }
            }
            if has_key(defs, k2) {
                let j = choose|j: int| 0 <= j < defs.len() && defs[j].0 == k2;
                if j == i {
                    assert(u[i].0 == k2);
                } else {
                    assert(u[j].0 == k2);
                }
            }
            if k2 == k {
                assert(u[i].0 == k2);
            }
        }
    } else {
        let u = defs.push((k, v));
        assert(u.drop_last() =~= defs);
        assert forall|i: int, j: int| 0 <= i < j < u.len() implies u[i].0 != u[j].0 by {
            if j == defs.len() {
                assert(u[i].0 == defs[i].0);
                assert(!(defs[i].0 == k));
            }
        }
        assert forall|k2: Seq<char>|
            has_key(u, k2) == (has_key(defs, k2) || k2 == k) by {
            if has_key(u, k2) {
                let j = choose|j: int| 0 <= j < u.len() && u[j].0 == k2;
                if j < defs.len() {
                    assert(defs[j].0 == k2);
                }
            }
            if has_key(defs, k2) {
                let j = choose|j: int| 0 <= j < defs.len() && defs[j].0 == k2;
                assert(u[j].0 == k2);
            }
            if k2 == k {
                assert(u[defs.len() as int].0 == k2);
            }
        }
    }
}

/// Hoisting keeps names unique and acts on the map view as the corresponding
/// sequence of insertions.
pub proof fn lemma_hoist(defs: Seq<(Seq<char>, Seq<char>)>, nested: Seq<(Seq<char>, Seq<char>)>)
    requires
        unique_keys(defs),
    ensures
        unique_keys(hoist(defs, nested)),
        defs_map(hoist(defs, nested)) == hoisted_map(defs_map(defs), nested),
    decreases nested.len(),
{
    if nested.len() == 0 {
    } else {
        lemma_upsert(defs, nested[0].0, nested[0].1);
        lemma_hoist(upsert(defs, nested[0].0, nested[0].1), nested.drop_first());
    }
}

/// Appending one more nested entry hoists it last.
proof fn lemma_hoist_push(
    defs: Seq<(Seq<char>, Seq<char>)>,
    nested: Seq<(Seq<char>, Seq<char>)>,
    k: Seq<char>,
    v: Seq<char>,
)
    ensures
        hoist(defs, nested.push((k, v))) == upsert(hoist(defs, nested), k, v),
    decreases nested.len(),
{
    let s = nested.push((k, v));
    if nested.len() == 0 {
        assert(s[0] == (k, v));
        assert(s.drop_first() =~= Seq::<(Seq<char>, Seq<char>)>::empty());
        assert(hoist(defs, s) == hoist(upsert(defs, k, v), s.drop_first()));
        assert(hoist(upsert(defs, k, v), s.drop_first()) == upsert(defs, k, v));
        assert(hoist(defs, nested) == defs);
    } else {
        assert(s[0] == nested[0]);
        assert(s.drop_first() =~= nested.drop_first().push((k, v)));
        lemma_hoist_push(upsert(defs, nested[0].0, nested[0].1), nested.drop_first(), k, v);
        assert(hoist(defs, s) == hoist(upsert(defs, nested[0].0, nested[0].1), s.drop_first()));
        assert(hoist(defs, nested) == hoist(
            upsert(defs, nested[0].0, nested[0].1),
            nested.drop_first(),
        ));
    }
}

/// A step of the hoisting loop, phrased over prefixes.
pub proof fn lemma_hoist_take_step(
    defs: Seq<(Seq<char>, Seq<char>)>,
    nested: Seq<(Seq<char>, Seq<char>)>,
    i: int,
)
    requires
        0 <= i < nested.len(),
    ensures
        hoist(defs, nested.take(i + 1)) == upsert(hoist(defs, nested.take(i)), nested[i].0, nested[i].1),
{
    assert(nested.take(i + 1) =~= nested.take(i).push(nested[i]));
    lemma_hoist_push(defs, nested.take(i), nested[i].0, nested[i].1);
}

/// The character for one decimal digit.
pub open spec fn digit_char(d: nat) -> char {
    if d == 0 {
        '0'
    } else if d == 1 {
        '1'
    } else if d == 2 {
        '2'
    } else if d == 3 {
        '3'
    } else if d == 4 {
        '4'
    } else if d == 5 {
        '5'
    } else if d == 6 {
        '6'
    } else if d == 7 {
        '7'
    } else if d == 8 {
        '8'
    } else {
        '9'
    }
}

/// The decimal digits of `n`, most significant first.
pub open spec fn dec_chars(n: nat) -> Seq<char>
    decreases n,
{
    if n < 10 {
        seq![digit_char(n)]
    } else {
        dec_chars(n / 10).push(digit_char(n % 10))
    }
}

fn digit_str(d: u64) -> (r: &'static str)
    requires
        d < 10,
    ensures
        r@ == seq![digit_char(d as nat)],
{
    if d == 0 {
        proof {
            reveal_strlit("0");
            assert("0"@ =~= seq!['0']);
        }
        "0"
    } else if d == 1 {
        proof {
            reveal_strlit("1");
            assert("1"@ =~= seq!['1']);
        }
        "1"
    } else if d == 2 {
        proof {
            reveal_strlit("2");
            assert("2"@ =~= seq!['2']);
        }
        "2"
    } else if d == 3 {
        proof {
            reveal_strlit("3");
            assert("3"@ =~= seq!['3']);
        }
        "3"
    } else if d == 4 {
        proof {
            reveal_strlit("4");
            assert("4"@ =~= seq!['4']);
        }
        "4"
    } else if d == 5 {
        proof {
            reveal_strlit("5");
            assert("5"@ =~= seq!['5']);
        }
        "5"
    } else if d == 6 {
        proof {
            reveal_strlit("6");
            assert("6"@ =~= seq!['6']);
        }
        "6"
    } else if d == 7 {
        proof {
            reveal_strlit("7");
            assert("7"@ =~= seq!['7']);
        }
        "7"
    } else if d == 8 {
        proof {
            reveal_strlit("8");
            assert("8"@ =~= seq!['8']);
        }
        "8"
    } else {
        proof {
            reveal_strlit("9");
            assert("9"@ =~= seq!['9']);
        }
        "9"
    }
}

/// Appends the decimal rendering of `n`.
pub fn push_dec(out: &mut String, n: u64)
    ensures
        final(out)@ == old(out)@ + dec_chars(n as nat),
    decreases n,
{
    if n >= 10 {
        push_dec(out, n / 10);
        out.append(digit_str(n % 10));
        proof {
            assert(old(out)@ + dec_chars((n / 10) as nat) + seq![digit_char((n % 10) as nat)]
                =~= old(out)@ + dec_chars(n as nat));
        }
    } else {
        out.append(digit_str(n));
        proof {
            assert(old(out)@ + seq![digit_char(n as nat)] =~= old(out)@ + dec_chars(n as nat));
        }
    }
}

/// The JSON string literal that renders `s`: surrounding quotes, with the
/// serializer's escaping applied inside.
pub uninterp spec fn json_quoted(s: Seq<char>) -> Seq<char>;

/// Relies on `json::stringify` applied to a string value: the result is the
/// JSON string literal for the argument, a pure function of its characters.
#[verifier::external_body]
fn json_quote(s: &str) -> (r: String)
    ensures
        r@ == json_quoted(s@),
{
    json::stringify(s)
}

/// One definitions entry as document text: quoted name, colon, node text.
pub open spec fn def_entry_text(k: Seq<char>, v: Seq<char>) -> Seq<char> {
    json_quoted(k) + ":"@ + v
}

/// The body of the definitions object: its entries in order, comma-separated.
pub open spec fn defs_text(defs: Seq<(Seq<char>, Seq<char>)>) -> Seq<char>
    decreases defs.len(),
{
    if defs.len() == 0 {
        Seq::empty()
    } else if defs.len() == 1 {
        def_entry_text(defs[0].0, defs[0].1)
    } else {
        defs_text(defs.drop_last()) + ","@ + def_entry_text(defs.last().0, defs.last().1)
    }
}

/// Property slot `i`: the synthetic key `t<i>` and a reference to `title`.
pub open spec fn prop_entry_text(i: nat, title: Seq<char>) -> Seq<char> {
    "\"t"@ + dec_chars(i) + "\":{\"$ref\":"@ + json_quoted("#/definitions/"@ + title) + "}"@
}

/// The body of the properties object: slot `t<i>` for each pushed title.
pub open spec fn props_text(props: Seq<Seq<char>>) -> Seq<char>
    decreases props.len(),
{
    if props.len() == 0 {
        Seq::empty()
    } else if props.len() == 1 {
        prop_entry_text(0, props[0])
    } else {
        props_text(props.drop_last()) + ","@ + prop_entry_text(
            (props.len() - 1) as nat,
            props.last(),
        )
    }
}

/// The merged document: fixed metadata, the definitions in document order,
/// and — once anything was pushed — the property slots in push order. (An
/// untouched accumulator's document has no `properties` member at all.)
pub open spec fn document_text(m: SchemaModel) -> Seq<char> {
    "{\"$schema\":\"http://json-schema.org/draft-07/schema#\",\"type\":\"object\",\"definitions\":{"@
        + defs_text(m.defs) + "}"@ + (if m.props.len() == 0 {
        Seq::<char>::empty()
    } else {
        ",\"properties\":{"@ + props_text(m.props) + "}"@
    }) + "}"@
}

proof fn lemma_defs_text_step(defs: Seq<(Seq<char>, Seq<char>)>, i: int)
    requires
        0 <= i < defs.len(),
    ensures
        defs_text(defs.take(i + 1)) == if i == 0 {
            def_entry_text(defs[0].0, defs[0].1)
        } else {
            defs_text(defs.take(i)) + ","@ + def_entry_text(defs[i].0, defs[i].1)
        },
{
    let t = defs.take(i + 1);
    assert(t.drop_last() =~= defs.take(i));
    assert(t.last() == defs[i]);
    if i == 0 {
        assert(t[0] == defs[0]);
    }
}

proof fn lemma_props_text_step(props: Seq<Seq<char>>, i: int)
    requires
        0 <= i < props.len(),
    ensures
        props_text(props.take(i + 1)) == if i == 0 {
            prop_entry_text(0, props[0])
        } else {
            props_text(props.take(i)) + ","@ + prop_entry_text(i as nat, props[i])
        },
{
    let t = props.take(i + 1);
    assert(t.drop_last() =~= props.take(i));
    assert(t.last() == props[i]);
    if i == 0 {
        assert(t[0] == props[0]);
    }
}

proof fn lemma_hoisted_map_untouched(
    mp: Map<Seq<char>, Seq<char>>,
    nested: Seq<(Seq<char>, Seq<char>)>,
    k: Seq<char>,
)
    requires
        forall|j: int| 0 <= j < nested.len() ==> nested[j].0 != k,
    ensures
        hoisted_map(mp, nested).contains_key(k) == mp.contains_key(k),
        mp.contains_key(k) ==> hoisted_map(mp, nested)[k] == mp[k],
    decreases nested.len(),
{
    if nested.len() == 0 {
    } else {
        assert(forall|j: int|
            0 <= j < nested.drop_first().len() ==> nested.drop_first()[j].0 != k);
        lemma_hoisted_map_untouched(mp.insert(nested[0].0, nested[0].1), nested.drop_first(), k);
    }
}

proof fn lemma_hoisted_map_last(
    mp: Map<Seq<char>, Seq<char>>,
    nested: Seq<(Seq<char>, Seq<char>)>,
    i: int,
)
    requires
        0 <= i < nested.len(),
        forall|j: int| i < j < nested.len() ==> nested[j].0 != nested[i].0,
    ensures
        hoisted_map(mp, nested).contains_key(nested[i].0),
        hoisted_map(mp, nested)[nested[i].0] == nested[i].1,
    decreases nested.len(),
{
    if i == 0 {
        let mp1 = mp.insert(nested[0].0, nested[0].1);
        assert(forall|j: int|
            0 <= j < nested.drop_first().len() ==> nested.drop_first()[j].0 != nested[0].0);
        lemma_hoisted_map_untouched(mp1, nested.drop_first(), nested[0].0);
    } else {
        assert(nested.drop_first()[i - 1] == nested[i]);
        assert(forall|j: int|
            i - 1 < j < nested.drop_first().len() ==> (#[trigger] nested.drop_first()[j]).0
                != nested.drop_first()[i - 1].0);
        lemma_hoisted_map_last(mp.insert(nested[0].0, nested[0].1), nested.drop_first(), i - 1);
    }
}

proof fn lemma_hoisted_map_monotone(
    mp: Map<Seq<char>, Seq<char>>,
    nested: Seq<(Seq<char>, Seq<char>)>,
)
    ensures
        forall|k: Seq<char>|
            mp.contains_key(k) ==> #[trigger] hoisted_map(mp, nested).contains_key(k),
    decreases nested.len(),
{
    if nested.len() == 0 {
    } else {
        let mp1 = mp.insert(nested[0].0, nested[0].1);
        lemma_hoisted_map_monotone(mp1, nested.drop_first());
        assert forall|k: Seq<char>|
            mp.contains_key(k) implies #[trigger] hoisted_map(mp, nested).contains_key(k) by {
            assert(mp1.contains_key(k));
            assert(hoisted_map(mp1, nested.drop_first()).contains_key(k));
        }
    }
}

/// One push keeps names unique and leaves every existing name present; the
/// pushed title is present afterwards.
proof fn lemma_push_model_keys(
    m: SchemaModel,
    title: Seq<char>,
    text: Seq<char>,
    nested: Seq<(Seq<char>, Seq<char>)>,
    raw: Seq<char>,
)
    requires
        unique_keys(m.defs),
    ensures
        unique_keys(push_model(m, title, text, nested, raw).defs),
        defs_map(push_model(m, title, text, nested, raw).defs).contains_key(title),
        forall|k: Seq<char>|
            defs_map(m.defs).contains_key(k) ==> #[trigger] defs_map(
                push_model(m, title, text, nested, raw).defs,
            ).contains_key(k),
{
    lemma_upsert(m.defs, title, text);
    lemma_hoist(upsert(m.defs, title, text), nested);
    lemma_hoisted_map_monotone(defs_map(m.defs).insert(title, text), nested);
}

/// Pushing never removes a definition: names only accumulate.
proof fn lemma_push_all_keys_monotone(m: SchemaModel, frags: Seq<FragModel>)
    requires
        unique_keys(m.defs),
    ensures
        unique_keys(push_all(m, frags).defs),
        forall|k: Seq<char>|
            defs_map(m.defs).contains_key(k) ==> #[trigger] defs_map(
                push_all(m, frags).defs,
            ).contains_key(k),
    decreases frags.len(),
{
    if frags.len() == 0 {
    } else {
        let f = frags[0];
        lemma_push_model_keys(m, f.title, f.text, f.nested, f.raw);
        lemma_push_all_keys_monotone(
            push_model(m, f.title, f.text, f.nested, f.raw),
            frags.drop_first(),
        );
    }
}

proof fn lemma_push_all_props(m: SchemaModel, frags: Seq<FragModel>)
    ensures
        push_all(m, frags).props =~= m.props + frags.map_values(|f: FragModel| f.title),
    decreases frags.len(),
{
    if frags.len() == 0 {
        assert(m.props + frags.map_values(|f: FragModel| f.title) =~= m.props);
    } else {
        let f = frags[0];
        let m1 = push_model(m, f.title, f.text, f.nested, f.raw);
        lemma_push_all_props(m1, frags.drop_first());
        assert(frags.drop_first().map_values(|f: FragModel| f.title) =~= frags.map_values(
            |f: FragModel| f.title,
        ).drop_first());
        assert(m.props.push(f.title) + frags.map_values(|f: FragModel| f.title).drop_first()
            =~= m.props + frags.map_values(|f: FragModel| f.title));
    }
}

proof fn lemma_push_all_titles_present(m: SchemaModel, frags: Seq<FragModel>)
    requires
        unique_keys(m.defs),
    ensures
        forall|i: int|
            0 <= i < frags.len() ==> defs_map(push_all(m, frags).defs).contains_key(
                #[trigger] frags[i].title,
            ),
    decreases frags.len(),
{
    if frags.len() == 0 {
    } else {
        let f = frags[0];
        let m1 = push_model(m, f.title, f.text, f.nested, f.raw);
        lemma_push_model_keys(m, f.title, f.text, f.nested, f.raw);
        lemma_push_all_keys_monotone(m1, frags.drop_first());
        lemma_push_all_titles_present(m1, frags.drop_first());
        assert forall|i: int|
            0 <= i < frags.len() implies defs_map(push_all(m, frags).defs).contains_key(
            #[trigger] frags[i].title,
        ) by {
            if i > 0 {
                assert(frags.drop_first()[i - 1] == frags[i]);
            }
        }
    }
}

/// Pushing any sequence of fragments yields exactly one property slot per
/// fragment, keyed `t0..t(N-1)` in push order; with the titles pairwise
/// distinct, the definitions object keeps exactly one entry under every
/// pushed title.
pub proof fn lemma_accumulator_shape(frags: Seq<FragModel>)
    requires
        forall|i: int, j: int| 0 <= i < j < frags.len() ==> frags[i].title != frags[j].title,
    ensures
        ({
            let m = push_all(empty_model(), frags);
            &&& m.props == frags.map_values(|f: FragModel| f.title)
            &&& m.props.len() == frags.len()
            &&& unique_keys(m.defs)
            &&& forall|i: int|
                0 <= i < frags.len() ==> defs_map(m.defs).contains_key(#[trigger] frags[i].title)
        }),
{
    lemma_push_all_props(empty_model(), frags);
    lemma_push_all_keys_monotone(empty_model(), frags);
    lemma_push_all_titles_present(empty_model(), frags);
    assert(push_all(empty_model(), frags).props =~= frags.map_values(|f: FragModel| f.title));
}

/// With pairwise-distinct titles and no nested definitions, the definitions
/// are exactly the pushed fragments' nodes, one per fragment, in push order.
pub proof fn lemma_accumulator_plain_fragments(frags: Seq<FragModel>)
    requires
        forall|i: int, j: int| 0 <= i < j < frags.len() ==> frags[i].title != frags[j].title,
        forall|i: int| 0 <= i < frags.len() ==> #[trigger] frags[i].nested.len() == 0,
    ensures
        push_all(empty_model(), frags).defs == frags.map_values(
            |f: FragModel| (f.title, f.text),
        ),
{
    lemma_push_all_plain(empty_model(), frags);
    assert(empty_model().defs + frags.map_values(|f: FragModel| (f.title, f.text)) =~= frags
        .map_values(|f: FragModel| (f.title, f.text)));
}

proof fn lemma_push_all_plain(m: SchemaModel, frags: Seq<FragModel>)
    requires
        unique_keys(m.defs),
        forall|i: int, j: int| 0 <= i < j < frags.len() ==> frags[i].title != frags[j].title,
        forall|i: int| 0 <= i < frags.len() ==> !has_key(m.defs, #[trigger] frags[i].title),
        forall|i: int| 0 <= i < frags.len() ==> #[trigger] frags[i].nested.len() == 0,
    ensures
        push_all(m, frags).defs == m.defs + frags.map_values(|f: FragModel| (f.title, f.text)),
    decreases frags.len(),
{
    if frags.len() == 0 {
        assert(m.defs + frags.map_values(|f: FragModel| (f.title, f.text)) =~= m.defs);
    } else {
        let f = frags[0];
        let m1 = push_model(m, f.title, f.text, f.nested, f.raw);
        lemma_upsert(m.defs, f.title, f.text);
        assert(m1.defs == m.defs.push((f.title, f.text)));
        assert forall|i: int|
            0 <= i < frags.drop_first().len() implies !has_key(
            m1.defs,
            #[trigger] frags.drop_first()[i].title,
        ) by {
            assert(frags.drop_first()[i] == frags[i + 1]);
            assert(!has_key(m.defs, frags[i + 1].title));
            assert(frags[i + 1].title != f.title);
        }
        lemma_push_all_plain(m1, frags.drop_first());
        assert(frags.drop_first().map_values(|f: FragModel| (f.title, f.text)) =~= frags
            .map_values(|f: FragModel| (f.title, f.text)).drop_first());
        assert(m.defs.push((f.title, f.text)) + frags.map_values(
            |f: FragModel| (f.title, f.text),
        ).drop_first() =~= m.defs + frags.map_values(|f: FragModel| (f.title, f.text)));
    }
}

/// Lossy merge: a nested definition whose name already exists at the top
/// level overwrites the earlier entry. After the push, the name maps to the
/// nested node's text (its last occurrence, if the fragment repeats it),
/// whatever the document held before.
pub proof fn lemma_nested_definition_overwrites(
    m: SchemaModel,
    title: Seq<char>,
    text: Seq<char>,
    nested: Seq<(Seq<char>, Seq<char>)>,
    raw: Seq<char>,
    i: int,
)
    requires
        unique_keys(m.defs),
        0 <= i < nested.len(),
        forall|j: int| i < j < nested.len() ==> nested[j].0 != nested[i].0,
    ensures
        ({
            let d = push_model(m, title, text, nested, raw).defs;
            &&& defs_map(d).contains_key(nested[i].0)
            &&& defs_map(d)[nested[i].0] == nested[i].1
        }),
{
    lemma_upsert(m.defs, title, text);
    lemma_hoist(upsert(m.defs, title, text), nested);
    lemma_hoisted_map_last(defs_map(m.defs).insert(title, text), nested, i);
}

/// End to end: one fragment with no nested definitions, pushed into a fresh
/// accumulator, is the whole document — one definitions entry holding exactly
/// the fragment's node under its title, and one property slot referring to
/// that title.
pub proof fn lemma_single_fragment(title: Seq<char>, text: Seq<char>, raw: Seq<char>)
    ensures
        ({
            let m = push_model(empty_model(), title, text, Seq::empty(), raw);
            &&& m.defs =~= seq![(title, text)]
            &&& m.props =~= seq![title]
        }),
{
    assert(!has_key(empty_model().defs, title));
}

/// One schema fragment, already split into the parts the accumulator reads:
/// its title, its serialized text, its nested definitions (name and
/// serialized text, in object order), and the raw text it was parsed from.
pub struct Fragment {
    pub title: String,
    pub text: String,
    pub nested: Vec<(String, String)>,
    pub raw: String,
}

impl View for Fragment {
    type V = FragModel;

    open spec fn view(&self) -> FragModel {
        FragModel {
            title: self.title@,
            text: self.text@,
            nested: entry_views(self.nested@),
            raw: self.raw@,
        }
    }
}

/// The title of the fragment `s` parses to: the string under its `title`
/// member, or `None` when `s` is not valid JSON or carries no string there.
pub uninterp spec fn fragment_title(s: Seq<char>) -> Option<Seq<char>>;

/// The serialized text of the value `s` parses to (parsing and serialization
/// are pure functions of the text, so the result is a function of `s` alone).
pub uninterp spec fn fragment_text(s: Seq<char>) -> Seq<char>;

/// The entries of the `definitions` member of the value `s` parses to, in
/// object order, each value serialized; empty when there is no such object.
pub uninterp spec fn fragment_nested(s: Seq<char>) -> Seq<(Seq<char>, Seq<char>)>;

/// Relies on `json::parse`, `json::JsonValue::as_str`,
/// `json::JsonValue::entries` and `json::JsonValue::dump`: parses one
/// fragment and hands its title, its serialized text and its nested
/// definitions over as plain strings. Parsing is deterministic, so those
/// parts are functions of `s` alone, named by the spec functions above.
#[verifier::external_body]
fn decompose_fragment(s: &str) -> (r: Option<Fragment>)
    ensures
        (r is Some) == (fragment_title(s@) is Some),
        r is Some ==> r.unwrap()@.title == fragment_title(s@).unwrap(),
        r is Some ==> r.unwrap()@.text == fragment_text(s@),
        r is Some ==> r.unwrap()@.nested == fragment_nested(s@),
        r is Some ==> r.unwrap()@.raw == s@,
{
    let v = match json::parse(s) {
        Ok(v) => v,
        Err(_) => return None,
    };
    let title = match v["title"].as_str() {
        Some(t) => t.to_owned(),
        None => return None,
    };
    let mut nested: Vec<(String, String)> = Vec::new();
    for (k, node) in v["definitions"].entries() {
        nested.push((k.to_owned(), node.dump()));
    }
    Some(Fragment { title, text: v.dump(), nested, raw: s.to_owned() })
}

/// The merged schema document under construction.
#[derive(Debug, Clone)]
pub struct Schema {
    current_num: usize,
    definitions: Vec<(String, String)>,
    prop_titles: Vec<String>,
    raw_schemas: Vec<(String, String)>,
}

impl View for Schema {
    type V = SchemaModel;

    closed spec fn view(&self) -> SchemaModel {
        SchemaModel {
            defs: entry_views(self.definitions@),
            props: self.prop_titles@.map_values(|t: String| t@),
            raws: entry_views(self.raw_schemas@),
        }
    }
}

/// Insert-or-replace on the entry list, keeping names unique and positions
/// stable.
fn upsert_entry(defs: &mut Vec<(String, String)>, key: String, val: String)
    requires
        unique_keys(entry_views(old(defs)@)),
    ensures
        entry_views(final(defs)@) == upsert(entry_views(old(defs)@), key@, val@),
        unique_keys(entry_views(final(defs)@)),
{
    let ghost gdefs = entry_views(defs@);
    proof {
        lemma_upsert(gdefs, key@, val@);
    }
    let mut i: usize = 0;
    while i < defs.len()
        invariant
            unique_keys(gdefs),
            gdefs == entry_views(defs@),
            gdefs == entry_views(old(defs)@),
            gdefs.len() == defs@.len(),
            i <= defs@.len(),
            forall|m: int| 0 <= m < i ==> gdefs[m].0 != key@,
        decreases defs@.len() - i,
    {
        if defs[i].0 == key {
            proof {
                lemma_key_index_unique_pos(gdefs, key@, i as int);
                lemma_upsert(gdefs, key@, val@);
            }
            defs.remove(i);
            defs.insert(i, (key, val));
            proof {
                assert(entry_views(defs@) =~= gdefs.update(i as int, (key@, val@)));
            }
            return;
        }
        i += 1;
    }
    proof {
        assert(!has_key(gdefs, key@));
    }
    defs.push((key, val));
    proof {
        assert(entry_views(defs@) =~= gdefs.push((key@, val@)));
    }
}

impl Schema {
    /// All names in the definitions object are distinct, and the property
    /// counter equals the number of pushed fragments.
    pub closed spec fn wf(&self) -> bool {
        &&& unique_keys(self@.defs)
        &&& self.current_num == self@.props.len()
        &&& self@.raws.len() == self@.props.len()
    }

    /// A fresh accumulator: fixed metadata only, no definitions, no
    /// properties.
    pub fn new() -> (r: Self)
        ensures
            r@ == empty_model(),
            r.wf(),
    {
        let r = Schema {
            current_num: 0,
            definitions: Vec::new(),
            prop_titles: Vec::new(),
            raw_schemas: Vec::new(),
        };
        proof {
            assert(r@.defs =~= empty_model().defs);
            assert(r@.props =~= empty_model().props);
            assert(r@.raws =~= empty_model().raws);
            assert(r@ =~= empty_model());
        }
        r
    }

    /// Merges one decomposed fragment in: its node lands under its title, one
    /// new property slot refers to that title, and its nested definitions are
    /// hoisted to the top level (colliding names silently overwrite).
    pub fn push_fragment(&mut self, f: Fragment)
        requires
            old(self).wf(),
        ensures
            final(self).wf(),
            final(self)@ == push_model(old(self)@, f@.title, f@.text, f@.nested, f@.raw),
    {
        let ghost m0 = old(self)@;
        let ghost fm = f@;
        let Fragment { title, text, nested, raw } = f;
        self.raw_schemas.push((title.clone(), raw));
        proof {
            assert(entry_views(self.raw_schemas@) =~= m0.raws.push((fm.title, fm.raw)));
        }
        upsert_entry(&mut self.definitions, title.clone(), text);
        let ghost base = entry_views(self.definitions@);
        let mut i: usize = 0;
        while i < nested.len()
            invariant
                i <= nested@.len(),
                unique_keys(entry_views(self.definitions@)),
                entry_views(self.definitions@) == hoist(base, entry_views(nested@).take(i as int)),
                entry_views(self.raw_schemas@) == m0.raws.push((fm.title, fm.raw)),
                self.prop_titles@ == old(self).prop_titles@,
                self.current_num == old(self).current_num,
            decreases nested@.len() - i,
        {
            let entry = (nested[i].0.clone(), nested[i].1.clone());
            upsert_entry(&mut self.definitions, entry.0, entry.1);
            proof {
                lemma_hoist_take_step(base, entry_views(nested@), i as int);
                assert(entry_views(nested@)[i as int] == (nested@[i as int].0@, nested@[i as int].1@));
            }
            i += 1;
        }
        proof {
            assert(entry_views(nested@).take(nested@.len() as int) =~= entry_views(nested@));
            assert(entry_views(self.definitions@) == hoist(upsert(m0.defs, fm.title, fm.text), fm.nested));
        }
        self.prop_titles.push(title);
        let n = self.prop_titles.len();
        proof {
            assert(n == m0.props.len() + 1);
        }
        self.current_num = self.current_num + 1;
        proof {
            assert(self.prop_titles@.map_values(|t: String| t@) =~= m0.props.push(fm.title));
            assert(self@ =~= push_model(m0, fm.title, fm.text, fm.nested, fm.raw));
        }
    }

    /// Parses one fragment and merges it in. Fails, leaving the accumulator
    /// untouched, exactly when the text is not valid JSON or carries no
    /// string `title`.
    pub fn push_schema_str(&mut self, s: &str) -> (r: Result<(), SchemaParseError>)
        requires
            old(self).wf(),
        ensures
            final(self).wf(),
            (r is Ok) == (fragment_title(s@) is Some),
            r is Ok ==> final(self)@ == push_model(
                old(self)@,
                fragment_title(s@).unwrap(),
                fragment_text(s@),
                fragment_nested(s@),
                s@,
            ),
            r is Err ==> *final(self) == *old(self),
    {
        match decompose_fragment(s) {
            Some(f) => {
                self.push_fragment(f);
                Ok(())
            },
            None => Err(SchemaParseError),
        }
    }

    /// Serializes the merged document, compact, in document order.
    pub fn document_string(&self) -> (r: String)
        ensures
            r@ == document_text(self@),
    {
        let ghost defs = entry_views(self.definitions@);
        let ghost props = self.prop_titles@.map_values(|t: String| t@);
        let mut out = String::new();
        out.append(
            "{\"$schema\":\"http://json-schema.org/draft-07/schema#\",\"type\":\"object\",\"definitions\":{",
        );
        let ghost head =
            "{\"$schema\":\"http://json-schema.org/draft-07/schema#\",\"type\":\"object\",\"definitions\":{"@;
        let mut i: usize = 0;
        while i < self.definitions.len()
            invariant
                i <= self.definitions@.len(),
                defs == entry_views(self.definitions@),
                out@ == head + defs_text(defs.take(i as int)),
            decreases self.definitions@.len() - i,
        {
            if i > 0 {
                out.append(",");
            }
            let q = json_quote(self.definitions[i].0.as_str());
            out.append(q.as_str());
            out.append(":");
            out.append(self.definitions[i].1.as_str());
            proof {
                lemma_defs_text_step(defs, i as int);
                assert(defs[i as int] == (self.definitions@[i as int].0@, self.definitions@[i as int].1@));
                assert(out@ =~= head + defs_text(defs.take(i as int + 1)));
            }
            i += 1;
        }
        proof {
            assert(defs.take(defs.len() as int) =~= defs);
        }
        out.append("}");
        if self.prop_titles.len() > 0 {
            out.append(",\"properties\":{");
            let ghost mid = head + defs_text(defs) + "}"@ + ",\"properties\":{"@;
            proof {
                assert(out@ =~= mid + props_text(props.take(0)));
            }
            let mut j: usize = 0;
            while j < self.prop_titles.len()
                invariant
                    j <= self.prop_titles@.len(),
                    props == self.prop_titles@.map_values(|t: String| t@),
                    props.len() == self.prop_titles@.len(),
                    out@ == mid + props_text(props.take(j as int)),
                decreases self.prop_titles@.len() - j,
            {
                if j > 0 {
                    out.append(",");
                }
                out.append("\"t");
                push_dec(&mut out, j as u64);
                out.append("\":{\"$ref\":");
                let mut target = String::new();
                target.append("#/definitions/");
                target.append(self.prop_titles[j].as_str());
                let q = json_quote(target.as_str());
                out.append(q.as_str());
                out.append("}");
                proof {
                    lemma_props_text_step(props, j as int);
                    assert(props[j as int] == self.prop_titles@[j as int]@);
                    assert(target@ == "#/definitions/"@ + props[j as int]);
                    assert(out@ =~= mid + props_text(props.take(j as int + 1)));
                }
                j += 1;
            }
            proof {
                assert(props.take(props.len() as int) =~= props);
            }
            out.append("}");
        }
        out.append("}");
        proof {
            assert(out@ =~= document_text(self@));
        }
        out
    }

    /// The definitions object's entries: name and node text, document order.
    pub fn definitions(&self) -> (r: &Vec<(String, String)>)
        ensures
            entry_views(r@) == self@.defs,
    {
        &self.definitions
    }

    /// The pushed titles in push order; property slot `t<i>` refers to the
    /// title at index `i`.
    pub fn property_titles(&self) -> (r: &Vec<String>)
        ensures
            r@.map_values(|t: String| t@) == self@.props,
    {
        &self.prop_titles
    }

    /// The raw fragment texts, with their titles, in push order.
    pub fn raw_schemas(&self) -> (r: &Vec<(String, String)>)
        ensures
            entry_views(r@) == self@.raws,
    {
        &self.raw_schemas
    }
}

} // verus!
