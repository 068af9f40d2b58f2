//! The order of native paths.
//!
//! Paths compare component by component; names compare by their encoded bytes.

use crate::model;
use crate::native::{ComponentModel, NativePath, NativeString, NativeText, PathComponent, PathModel, PathPrefix, PrefixModel};
use vstd::prelude::*;
use vstd::string::*;
use vstd::utf8::{encode_utf8};

verus! {

/// The units by which a name compares. Zero and one are left free for what ends a name.
pub open spec fn name_key(name: NativeText) -> Seq<u32> {
    match name {
        NativeText::Unicode(text) => encode_utf8(text).map_values(|byte: u8| (byte + 2) as u32),
        NativeText::Bytes(bytes) => bytes.map_values(|byte: u8| (byte + 2) as u32),
        NativeText::Wide(units) => encoded_units(units),
    }
}

/// The units by which a code point compares: the bytes of its encoding.
pub open spec fn code_units(code: u32) -> Seq<u32> {
    if code < 0x80 {
        seq![(code + 2) as u32]
    } else if code < 0x800 {
        seq![(0xc0 + code / 64 + 2) as u32, (0x80 + code % 64 + 2) as u32]
    } else if code < 0x1_0000 {
        seq![
            (0xe0 + code / 4096 + 2) as u32,
            (0x80 + code / 64 % 64 + 2) as u32,
            (0x80 + code % 64 + 2) as u32,
        ]
    } else {
        seq![
            (0xf0 + code / 262144 + 2) as u32,
            (0x80 + code / 4096 % 64 + 2) as u32,
            (0x80 + code / 64 % 64 + 2) as u32,
            (0x80 + code % 64 + 2) as u32,
        ]
    }
}

/// Whether two units are the halves of one code point.
pub open spec fn is_pair(high: u16, low: u16) -> bool {
    0xd800 <= high <= 0xdbff && 0xdc00 <= low <= 0xdfff
}

/// The code point of two halves.
pub open spec fn paired_code(high: u16, low: u16) -> u32 {
    (0x1_0000 + (high - 0xd800) * 0x400 + (low - 0xdc00)) as u32
}

/// The units by which a wide name compares: the bytes of its code points, where a half
/// that has no partner is a code point of its own.
pub open spec fn encoded_units(units: Seq<u16>) -> Seq<u32>
    decreases units.len(),
{
    if units.len() == 0 {
        Seq::empty()
    } else if units.len() >= 2 && is_pair(units[0], units[1]) {
        code_units(paired_code(units[0], units[1])) + encoded_units(units.skip(2))
    } else {
        code_units(units[0] as u32) + encoded_units(units.skip(1))
    }
}

/// Whether a name comes before another.
pub open spec fn name_less(left: NativeText, right: NativeText) -> bool {
    key_less(name_key(left), name_key(right))
}

/// The units by which a prefix compares: its kind, then what it names.
pub open spec fn prefix_key(prefix: PrefixModel) -> Seq<u32> {
    match prefix {
        PrefixModel::Verbatim(name) => seq![2u32] + name_key(name),
        PrefixModel::VerbatimUnc(server, share) => seq![3u32] + name_key(server) + seq![1u32] + name_key(share),
        PrefixModel::VerbatimDisk(letter) => seq![4u32, (letter + 2) as u32],
        PrefixModel::DeviceNs(name) => seq![5u32] + name_key(name),
        PrefixModel::Unc(server, share) => seq![6u32] + name_key(server) + seq![1u32] + name_key(share),
        PrefixModel::Disk(letter) => seq![7u32, (letter + 2) as u32],
    }
}

/// The units by which a component compares: its kind, then its name.
pub open spec fn component_key(component: ComponentModel) -> Seq<u32> {
    match component {
        ComponentModel::Prefix(prefix) => seq![2u32] + prefix_key(prefix),
        ComponentModel::RootDir => seq![3u32],
        ComponentModel::CurDir => seq![4u32],
        ComponentModel::ParentDir => seq![5u32],
        ComponentModel::Normal(name) => seq![6u32] + name_key(name),
    }
}

/// The units by which a path compares: every component, each ended by a zero.
pub open spec fn components_key(components: Seq<ComponentModel>) -> Seq<u32>
    decreases components.len(),
{
    if components.len() == 0 {
        Seq::empty()
    } else {
        components_key(components.drop_last()) + component_key(components.last()) + seq![0u32]
    }
}

/// The units by which a path compares.
pub open spec fn path_key(path: PathModel) -> Seq<u32> {
    components_key(path.components)
}

/// Lexicographic order.
pub open spec fn key_less(left: Seq<u32>, right: Seq<u32>) -> bool
    decreases left.len(),
{
    if right.len() == 0 {
        false
    } else if left.len() == 0 {
        true
    } else {
        left[0] < right[0] || (left[0] == right[0] && key_less(left.drop_first(), right.drop_first()))
    }
}

/// Whether the keys of some variables are in order, each once.
pub open spec fn keys_in_order(variables: Seq<(NativeText, NativeText)>) -> bool {
    forall|first: int, second: int|
        0 <= first < second < variables.len() ==> name_less(
            (#[trigger] variables[first]).0,
            (#[trigger] variables[second]).0,
        )
}

/// Variables whose keys are in order hold no key twice.
pub proof fn ordered_keys_differ(variables: Seq<(NativeText, NativeText)>, first: int, second: int)
    requires
        keys_in_order(variables),
        0 <= first < second < variables.len(),
    ensures
        variables[first].0 != variables[second].0,
{
    lemma_key_less_total(name_key(variables[first].0), name_key(variables[second].0));
}

proof fn lemma_key_less_at(left: Seq<u32>, right: Seq<u32>, index: int)
    requires
        0 <= index <= left.len(),
        index <= right.len(),
        forall|i: int| 0 <= i < index ==> left[i] == right[i],
    ensures
        index == left.len() && index < right.len() ==> key_less(left, right) && !key_less(right, left),
        index == right.len() && index < left.len() ==> key_less(right, left) && !key_less(left, right),
        index == left.len() && index == right.len() ==> left == right && !key_less(left, right),
        index < left.len() && index < right.len() && left[index] < right[index] ==> key_less(left, right)
            && !key_less(right, left),
        index < left.len() && index < right.len() && left[index] > right[index] ==> key_less(right, left)
            && !key_less(left, right),
    decreases index,
{
    if index > 0 {
        lemma_key_less_at(left.drop_first(), right.drop_first(), index - 1);
    }
    if index == left.len() && index == right.len() {
        assert(left =~= right);
    }
}

pub proof fn lemma_key_less_transitive(first: Seq<u32>, second: Seq<u32>, third: Seq<u32>)
    requires
        key_less(first, second),
        key_less(second, third),
    ensures
        key_less(first, third),
    decreases first.len(),
{
    if first.len() > 0 && second.len() > 0 && third.len() > 0 && first[0] == second[0] && second[0] == third[0] {
        lemma_key_less_transitive(first.drop_first(), second.drop_first(), third.drop_first());
    }
}

/// Of two keys exactly one comes first, unless they are the same.
pub proof fn lemma_key_less_total(left: Seq<u32>, right: Seq<u32>)
    ensures
        key_less(left, right) || key_less(right, left) || left == right,
        !(key_less(left, right) && key_less(right, left)),
        left == right ==> !key_less(left, right),
    decreases left.len(),
{
    if left.len() > 0 && right.len() > 0 && left[0] == right[0] {
        lemma_key_less_total(left.drop_first(), right.drop_first());
        if left.drop_first() == right.drop_first() {
            assert(left =~= seq![left[0]] + left.drop_first());
            assert(right =~= seq![right[0]] + right.drop_first());
        }
    } else if left.len() == 0 && right.len() == 0 {
        assert(left =~= right);
    }
}

/// How two keys compare.
#[derive(Clone, Copy, PartialEq, Eq, Structural)]
enum KeyOrder {
    Less,
    Equal,
    Greater,
}

fn key_order(left: &Vec<u32>, right: &Vec<u32>) -> (result: KeyOrder)
    ensures
        match result {
            KeyOrder::Less => key_less(left@, right@) && left@ != right@,
            KeyOrder::Equal => left@ == right@,
            KeyOrder::Greater => key_less(right@, left@) && left@ != right@,
        },
{
    let mut index: usize = 0;
    while index < left.len() && index < right.len() && left[index] == right[index]
        invariant
            index <= left.len(),
            index <= right.len(),
            forall|i: int| 0 <= i < index ==> left@[i] == right@[i],
        decreases left.len() - index,
    {
        index += 1;
    }
    proof {
        lemma_key_less_at(left@, right@, index as int);
        lemma_key_less_at(left@, left@, left@.len() as int);
    }
    if index == left.len() {
        if index == right.len() {
            KeyOrder::Equal
        } else {
            KeyOrder::Less
        }
    } else if index == right.len() {
        KeyOrder::Greater
    } else if left[index] < right[index] {
        KeyOrder::Less
    } else {
        KeyOrder::Greater
    }
}

/// Whether one key comes before another.
pub fn key_comes_first(left: &Vec<u32>, right: &Vec<u32>) -> (result: bool)
    ensures
        result == key_less(left@, right@),
{
    proof {
        lemma_key_less_total(left@, right@);
    }
    match key_order(left, right) {
        KeyOrder::Less => true,
        _ => false,
    }
}

fn push_bytes(key: &mut Vec<u32>, bytes: &[u8])
    ensures
        final(key)@ == old(key)@ + bytes@.map_values(|byte: u8| (byte + 2) as u32),
{
    let ghost start = key@;
    let ghost units = bytes@.map_values(|byte: u8| (byte + 2) as u32);
    assert(start + units.take(0) =~= start);
    for index in 0..bytes.len()
        invariant
            units == bytes@.map_values(|byte: u8| (byte + 2) as u32),
            key@ == start + units.take(index as int),
    {
        key.push(bytes[index] as u32 + 2);
        proof {
            model::lemma_take_push(units, index as int);
        }
        assert(key@ =~= start + units.take(index + 1));
    }
    proof {
        model::lemma_take_all(units);
    }
}

fn push_code(key: &mut Vec<u32>, code: u32)
    requires
        code < 0x11_0000,
    ensures
        final(key)@ == old(key)@ + code_units(code),
{
    let ghost start = key@;
    if code < 0x80 {
        key.push(code + 2);
    } else if code < 0x800 {
        key.push(0xc0 + code / 64 + 2);
        key.push(0x80 + code % 64 + 2);
    } else if code < 0x1_0000 {
        key.push(0xe0 + code / 4096 + 2);
        key.push(0x80 + code / 64 % 64 + 2);
        key.push(0x80 + code % 64 + 2);
    } else {
        key.push(0xf0 + code / 262144 + 2);
        key.push(0x80 + code / 4096 % 64 + 2);
        key.push(0x80 + code / 64 % 64 + 2);
        key.push(0x80 + code % 64 + 2);
    }
    assert(key@ =~= start + code_units(code));
}

fn push_units(key: &mut Vec<u32>, wide: &Vec<u16>)
    ensures
        final(key)@ == old(key)@ + encoded_units(wide@),
{
    let ghost start = key@;
    let ghost wanted = start + encoded_units(wide@);
    let mut index: usize = 0;
    assert(wide@.skip(0) =~= wide@);
    while index < wide.len()
        invariant
            index <= wide.len(),
            key@ + encoded_units(wide@.skip(index as int)) == wanted,
        decreases wide.len() - index,
    {
        let ghost before = key@;
        let ghost rest = wide@.skip(index as int);
        let unit: u16 = wide[index];
        let paired = index + 1 < wide.len() && 0xd800 <= unit && unit <= 0xdbff && 0xdc00 <= wide[index + 1]
            && wide[index + 1] <= 0xdfff;
        if paired {
            let low: u16 = wide[index + 1];
            push_code(key, 0x1_0000 + (unit as u32 - 0xd800) * 0x400 + (low as u32 - 0xdc00));
            assert(rest.skip(2) =~= wide@.skip(index + 2));
            assert(key@ + encoded_units(rest.skip(2)) =~= before + encoded_units(rest));
            index = index + 2;
        } else {
            push_code(key, unit as u32);
            assert(rest.skip(1) =~= wide@.skip(index + 1));
            assert(key@ + encoded_units(rest.skip(1)) =~= before + encoded_units(rest));
            index = index + 1;
        }
    }
    assert(key@ =~= wanted);
}

fn push_name(key: &mut Vec<u32>, name: &NativeString)
    ensures
        final(key)@ == old(key)@ + name_key(name@),
{
    match name {
        NativeString::Unicode(text) => {
            let text = text.as_str();
            push_bytes(key, text.as_bytes());
        },
        NativeString::Bytes(bytes) => push_bytes(key, bytes.as_slice()),
        NativeString::Wide(units) => push_units(key, units),
    }
}

fn push_component(key: &mut Vec<u32>, component: &PathComponent)
    ensures
        final(key)@ == old(key)@ + component_key(component@),
{
    let ghost start = key@;
    match component {
        PathComponent::Prefix(prefix) => {
            key.push(2);
            match prefix {
                PathPrefix::Verbatim(name) => {
                    key.push(2);
                    push_name(key, name);
                },
                PathPrefix::VerbatimUnc(server, share) => {
                    key.push(3);
                    push_name(key, server);
                    key.push(1);
                    push_name(key, share);
                },
                PathPrefix::VerbatimDisk(letter) => {
                    key.push(4);
                    key.push(*letter as u32 + 2);
                },
                PathPrefix::DeviceNs(name) => {
                    key.push(5);
                    push_name(key, name);
                },
                PathPrefix::Unc(server, share) => {
                    key.push(6);
                    push_name(key, server);
                    key.push(1);
                    push_name(key, share);
                },
                PathPrefix::Disk(letter) => {
                    key.push(7);
                    key.push(*letter as u32 + 2);
                },
            }
        },
        PathComponent::RootDir => key.push(3),
        PathComponent::CurDir => key.push(4),
        PathComponent::ParentDir => key.push(5),
        PathComponent::Normal(name) => {
            key.push(6);
            push_name(key, name);
        },
    }
    assert(key@ =~= start + component_key(component@));
}

fn key_of(path: &NativePath) -> (result: Vec<u32>)
    ensures
        result@ == path_key(path@),
{
    let ghost models = path@.components;
    let mut key: Vec<u32> = Vec::new();
    proof {
        model::lemma_take_all(models);
    }
    for index in 0..path.components.len()
        invariant
            models == path.components.deep_view(),
            key@ == components_key(models.take(index as int)),
    {
        push_component(&mut key, &path.components[index]);
        key.push(0);
        proof {
            model::lemma_take_push(models, index as int);
            assert(models[index as int] == path.components@[index as int].deep_view());
        }
        assert(key@ =~= components_key(models.take(index + 1)));
    }
    proof {
        model::lemma_take_all(models);
    }
    key
}

/// Whether the paths stand in increasing order, none of them twice.
pub open spec fn strictly_ordered(paths: Seq<PathModel>) -> bool {
    forall|i: int, j: int|
        0 <= i < j < paths.len() ==> key_less(path_key(#[trigger] paths[i]), path_key(#[trigger] paths[j]))
}

/// Whether the path at `index` is the first one at its place in the order.
pub open spec fn first_at_place(paths: Seq<PathModel>, index: int) -> bool {
    &&& 0 <= index < paths.len()
    &&& forall|earlier: int|
        0 <= earlier < index ==> path_key(#[trigger] paths[earlier]) != path_key(paths[index])
}

/// Whether the path is the first one at its place among `paths`.
pub open spec fn comes_first_in(paths: Seq<PathModel>, path: PathModel) -> bool {
    exists|source: int| #[trigger] first_at_place(paths, source) && paths[source] == path
}

/// Whether some path stands at the place of `path`.
pub open spec fn has_place_of(paths: Seq<PathModel>, path: PathModel) -> bool {
    exists|index: int| 0 <= index < paths.len() && path_key(#[trigger] paths[index]) == path_key(path)
}

/// Whether `result` holds the first path at every place that `paths` takes, in order.
pub open spec fn ordered_without_repeats(paths: Seq<PathModel>, result: Seq<PathModel>) -> bool {
    &&& strictly_ordered(result)
    &&& forall|index: int| 0 <= index < result.len() ==> #[trigger] comes_first_in(paths, result[index])
    &&& forall|source: int| 0 <= source < paths.len() ==> #[trigger] has_place_of(result, paths[source])
}

proof fn lemma_sources_carry_over(seen: Seq<PathModel>, added: PathModel, source: int)
    requires
        first_at_place(seen, source),
    ensures
        first_at_place(seen.push(added), source),
        seen.push(added)[source] == seen[source],
{
    let now = seen.push(added);
    assert forall|earlier: int| 0 <= earlier < source implies path_key(#[trigger] now[earlier]) != path_key(
        now[source],
    ) by {
        assert(now[earlier] == seen[earlier]);
    }
}

proof fn lemma_repeat_changes_nothing(seen: Seq<PathModel>, ordered: Seq<PathModel>, added: PathModel, place: int)
    requires
        ordered_without_repeats(seen, ordered),
        0 <= place < ordered.len(),
        path_key(ordered[place]) == path_key(added),
    ensures
        ordered_without_repeats(seen.push(added), ordered),
{
    let now = seen.push(added);
    assert forall|i: int| 0 <= i < ordered.len() implies #[trigger] comes_first_in(now, ordered[i]) by {
        assert(comes_first_in(seen, ordered[i]));
        let source = choose|source: int| #[trigger] first_at_place(seen, source) && seen[source] == ordered[i];
        lemma_sources_carry_over(seen, added, source);
    }
    assert forall|source: int| 0 <= source < now.len() implies #[trigger] has_place_of(ordered, now[source]) by {
        if source < seen.len() {
            assert(has_place_of(ordered, seen[source]));
        } else {
            assert(path_key(ordered[place]) == path_key(now[source]));
        }
    }
}

proof fn lemma_insertion_keeps_order(ordered: Seq<PathModel>, added: PathModel, place: int)
    requires
        strictly_ordered(ordered),
        0 <= place <= ordered.len(),
        forall|i: int| 0 <= i < place ==> key_less(path_key(#[trigger] ordered[i]), path_key(added)),
        place < ordered.len() ==> key_less(path_key(added), path_key(ordered[place])),
    ensures
        strictly_ordered(ordered.insert(place, added)),
        forall|i: int| 0 <= i < ordered.len() ==> path_key(#[trigger] ordered[i]) != path_key(added),
{
    let after = ordered.insert(place, added);
    let key = path_key(added);
    lemma_key_less_at(key, key, key.len() as int);
    assert forall|i: int| place <= i < ordered.len() implies key_less(key, path_key(#[trigger] ordered[i])) by {
        if i > place {
            assert(key_less(path_key(ordered[place]), path_key(ordered[i])));
            lemma_key_less_transitive(key, path_key(ordered[place]), path_key(ordered[i]));
        }
    }
    assert forall|i: int, j: int| 0 <= i < j < after.len() implies key_less(
        path_key(#[trigger] after[i]),
        path_key(#[trigger] after[j]),
    ) by {
        let left = if i < place { i } else { i - 1 };
        let right = if j < place { j } else { j - 1 };
        if i != place {
            assert(after[i] == ordered[left]);
        }
        if j != place {
            assert(after[j] == ordered[right]);
        }
    }
}

proof fn lemma_insertion_covers(seen: Seq<PathModel>, ordered: Seq<PathModel>, added: PathModel, place: int)
    requires
        ordered_without_repeats(seen, ordered),
        0 <= place <= ordered.len(),
        strictly_ordered(ordered.insert(place, added)),
        forall|i: int| 0 <= i < ordered.len() ==> path_key(#[trigger] ordered[i]) != path_key(added),
    ensures
        ordered_without_repeats(seen.push(added), ordered.insert(place, added)),
{
    let now = seen.push(added);
    let after = ordered.insert(place, added);
    let last = seen.len() as int;
    assert(first_at_place(now, last)) by {
        assert forall|earlier: int| 0 <= earlier < last implies path_key(#[trigger] now[earlier]) != path_key(
            now[last],
        ) by {
            assert(now[earlier] == seen[earlier]);
            assert(has_place_of(ordered, seen[earlier]));
        }
    }
    assert forall|i: int| 0 <= i < after.len() implies #[trigger] comes_first_in(now, after[i]) by {
        if i == place {
            assert(first_at_place(now, last) && now[last] == after[i]);
        } else {
            let old_index = if i < place { i } else { i - 1 };
            assert(after[i] == ordered[old_index]);
            assert(comes_first_in(seen, ordered[old_index]));
            let source = choose|source: int| #[trigger]
                first_at_place(seen, source) && seen[source] == ordered[old_index];
            lemma_sources_carry_over(seen, added, source);
        }
    }
    assert forall|source: int| 0 <= source < now.len() implies #[trigger] has_place_of(after, now[source]) by {
        if source < last {
            assert(has_place_of(ordered, seen[source]));
            let i = choose|i: int|
                0 <= i < ordered.len() && path_key(#[trigger] ordered[i]) == path_key(seen[source]);
            let moved = if i < place { i } else { i + 1 };
            assert(after[moved] == ordered[i]);
        } else {
            assert(after[place] == now[source]);
        }
    }
}

/// Where a path belongs among ordered ones, and whether its place is taken.
fn find_place(ordered: &Vec<NativePath>, path: &NativePath) -> (result: (usize, bool))
    requires
        strictly_ordered(ordered.deep_view()),
    ensures
        result.0 <= ordered@.len(),
        forall|i: int|
            0 <= i < result.0 ==> key_less(path_key(#[trigger] ordered.deep_view()[i]), path_key(path@)),
        result.1 ==> result.0 < ordered@.len() && path_key(ordered.deep_view()[result.0 as int]) == path_key(path@),
        !result.1 && result.0 < ordered@.len() ==> key_less(
            path_key(path@),
            path_key(ordered.deep_view()[result.0 as int]),
        ),
{
    let ghost models = ordered.deep_view();
    let key = key_of(path);
    let mut position: usize = 0;
    while position < ordered.len()
        invariant
            position <= ordered.len(),
            models == ordered.deep_view(),
            key@ == path_key(path@),
            forall|i: int| 0 <= i < position ==> key_less(path_key(#[trigger] models[i]), key@),
        decreases ordered.len() - position,
    {
        let other = key_of(&ordered[position]);
        assert(models[position as int] == ordered@[position as int].deep_view());
        match key_order(&other, &key) {
            KeyOrder::Less => {
                position += 1;
            },
            KeyOrder::Equal => {
                return (position, true);
            },
            KeyOrder::Greater => {
                return (position, false);
            },
        }
    }
    (position, false)
}

/// Sorts paths and keeps the first of those at one place.
pub fn sort_without_repeats(paths: Vec<NativePath>) -> (result: Vec<NativePath>)
    ensures
        ordered_without_repeats(paths.deep_view(), result.deep_view()),
{
    let ghost models = paths.deep_view();
    let mut ordered: Vec<NativePath> = Vec::new();
    for index in 0..paths.len()
        invariant
            models == paths.deep_view(),
            ordered_without_repeats(models.take(index as int), ordered.deep_view()),
    {
        let path = &paths[index];
        let (place, taken) = find_place(&ordered, path);
        proof {
            assert(models[index as int] == path.deep_view());
            model::lemma_take_push(models, index as int);
        }
        if taken {
            proof {
                lemma_repeat_changes_nothing(
                    models.take(index as int),
                    ordered.deep_view(),
                    path@,
                    place as int,
                );
            }
        } else {
            let ghost before = ordered.deep_view();
            let copy = path.clone();
            ordered.insert(place, copy);
            proof {
                assert(ordered.deep_view() =~= before.insert(place as int, path@));
                lemma_insertion_keeps_order(before, path@, place as int);
                lemma_insertion_covers(models.take(index as int), before, path@, place as int);
            }
        }
    }
    proof {
        model::lemma_take_all(models);
    }
    ordered
}

proof fn lemma_common_lead(lead: Seq<u32>, left: Seq<u32>, right: Seq<u32>)
    ensures
        key_less(lead + left, lead + right) <==> key_less(left, right),
    decreases lead.len(),
{
    if lead.len() == 0 {
        assert(lead + left =~= left);
        assert(lead + right =~= right);
    } else {
        let rest = lead.drop_first();
        lemma_common_lead(rest, left, right);
        assert((lead + left).drop_first() =~= rest + left);
        assert((lead + right).drop_first() =~= rest + right);
    }
}

proof fn lemma_components_concat(first: Seq<ComponentModel>, second: Seq<ComponentModel>)
    ensures
        components_key(first + second) == components_key(first) + components_key(second),
    decreases second.len(),
{
    if second.len() == 0 {
        assert(first + second =~= first);
        assert(components_key(first) + components_key(second) =~= components_key(first));
    } else {
        lemma_components_concat(first, second.drop_last());
        assert((first + second).drop_last() =~= first + second.drop_last());
        assert(components_key(first + second) =~= components_key(first) + components_key(second));
    }
}

/// A path comes right before everything below it, and two paths below one directory
/// compare by what they hold there.
pub proof fn paths_come_before_what_is_below(
    directory: Seq<ComponentModel>,
    left: Seq<ComponentModel>,
    right: Seq<ComponentModel>,
)
    ensures
        left.len() > 0 ==> key_less(components_key(directory), components_key(directory + left)),
        key_less(components_key(directory + left), components_key(directory + right)) <==> key_less(
            components_key(left),
            components_key(right),
        ),
{
    lemma_components_concat(directory, left);
    lemma_components_concat(directory, right);
    let lead = components_key(directory);
    lemma_common_lead(lead, components_key(left), components_key(right));
    lemma_common_lead(lead, Seq::empty(), components_key(left));
    assert(lead + Seq::<u32>::empty() =~= lead);
}

/// The rank of a component by its kind.
pub open spec fn component_rank(component: ComponentModel) -> nat {
    match component {
        ComponentModel::Prefix(_) => 0,
        ComponentModel::RootDir => 1,
        ComponentModel::CurDir => 2,
        ComponentModel::ParentDir => 3,
        ComponentModel::Normal(_) => 4,
    }
}

/// Components compare by their kind first: a prefix, a root, the directory itself, its
/// parent, a name; names then compare as names do.
pub proof fn components_compare_by_their_kind(left: ComponentModel, right: ComponentModel)
    ensures
        component_rank(left) < component_rank(right) ==> key_less(component_key(left), component_key(right)),
        (left matches ComponentModel::Normal(first) && right matches ComponentModel::Normal(second)) ==> (key_less(
            component_key(left),
            component_key(right),
        ) <==> name_less(left->Normal_0, right->Normal_0)),
{
    if left is Normal && right is Normal {
        lemma_common_lead(seq![6u32], name_key(left->Normal_0), name_key(right->Normal_0));
    }
}

/// Sorting loses no place and repeats none: each path that comes out is the first one given
/// for its place, and each path that was given has its place in the outcome.
pub proof fn sorting_keeps_the_first_of_each_place(paths: Seq<PathModel>, sorted: Seq<PathModel>, index: int, other: int)
    requires
        ordered_without_repeats(paths, sorted),
    ensures
        0 <= index < sorted.len() ==> exists|source: int|
            0 <= source < paths.len() && #[trigger] paths[source] == sorted[index] && forall|earlier: int|
                0 <= earlier < source ==> path_key(#[trigger] paths[earlier]) != path_key(sorted[index]),
        0 <= other < paths.len() ==> exists|place: int|
            0 <= place < sorted.len() && path_key(#[trigger] sorted[place]) == path_key(paths[other]),
        0 <= index < other < sorted.len() ==> key_less(path_key(sorted[index]), path_key(sorted[other])),
{
    if 0 <= index < sorted.len() {
        assert(comes_first_in(paths, sorted[index]));
        let source = choose|source: int| #[trigger] first_at_place(paths, source) && paths[source] == sorted[index];
        assert(paths[source] == sorted[index]);
    }
    if 0 <= other < paths.len() {
        assert(has_place_of(sorted, paths[other]));
    }
}

/// The units of some bytes.
spec fn raised(bytes: Seq<u8>) -> Seq<u32> {
    bytes.map_values(|byte: u8| (byte + 2) as u32)
}

proof fn lemma_code_units(code: u32)
    requires
        vstd::utf8::is_scalar(code),
    ensures
        raised(vstd::utf8::encode_scalar(code)) == code_units(code),
{
    let bytes = vstd::utf8::encode_scalar(code);
    if code < 0x80 {
        assert((code & 0x7F) as u8 == code) by (bit_vector)
            requires
                code < 0x80,
        ;
    } else if code < 0x800 {
        assert((0xC0u8 | ((code >> 6) & 0x1F) as u8) == 0xc0 + code / 64 && (0x80u8 | (code & 0x3F) as u8) == 0x80
            + code % 64) by (bit_vector)
            requires
                code < 0x800,
        ;
    } else if code < 0x1_0000 {
        assert((0xE0u8 | ((code >> 12) & 0x0F) as u8) == 0xe0 + code / 4096 && (0x80u8 | ((code >> 6) & 0x3F) as u8)
            == 0x80 + code / 64 % 64 && (0x80u8 | (code & 0x3F) as u8) == 0x80 + code % 64) by (bit_vector)
            requires
                code < 0x1_0000,
        ;
    } else {
        assert((0xF0u8 | ((code >> 18) & 0x7) as u8) == 0xf0 + code / 262144 && (0x80u8 | ((code >> 12) & 0x3F) as u8)
            == 0x80 + code / 4096 % 64 && (0x80u8 | ((code >> 6) & 0x3F) as u8) == 0x80 + code / 64 % 64 && (0x80u8 | (
        code & 0x3F) as u8) == 0x80 + code % 64) by (bit_vector)
            requires
                code < 0x11_0000,
        ;
    }
    assert(raised(bytes) =~= code_units(code));
}

/// A name compares by the bytes of its text, whether it is held as text, as those bytes, or
/// as wide units that spell it.
pub proof fn names_compare_by_their_bytes(text: Seq<char>)
    ensures
        name_key(NativeText::Bytes(encode_utf8(text))) == name_key(NativeText::Unicode(text)),
        name_key(NativeText::Wide(crate::utf16::encoded(text))) == name_key(NativeText::Unicode(text)),
    decreases text.len(),
{
    let units = crate::utf16::encoded(text);
    if text.len() > 0 {
        let rest = text.drop_first();
        let code = text[0] as u32;
        let more = crate::utf16::encoded(rest);
        names_compare_by_their_bytes(rest);
        crate::utf16::lemma_encoded_first(text);
        crate::utf16::characters_are_their_units(text[0]);
        vstd::utf8::char_is_scalar(text[0]);
        lemma_code_units(code);
        let first = vstd::utf8::encode_scalar(code);
        assert(raised(first + encode_utf8(rest)) =~= raised(first) + raised(encode_utf8(rest)));
        if code < 0x10000 {
            assert(units[0] == code);
            assert(units.skip(1) =~= more);
        } else {
            assert(units.skip(2) =~= more);
            assert(paired_code(units[0], units[1]) == code);
        }
        assert(encoded_units(units) == code_units(code) + encoded_units(more));
    } else {
        assert(raised(encode_utf8(text)) =~= Seq::empty());
        assert(units =~= Seq::empty());
    }
}

/// Of two names in bytes, the one with the lower byte at the first difference comes first,
/// and one that ends where the other goes on.
pub proof fn lower_bytes_come_first(lead: Seq<u8>, left: u8, right: u8, left_rest: Seq<u8>, right_rest: Seq<u8>)
    ensures
        left < right ==> name_less(
            NativeText::Bytes(lead.push(left) + left_rest),
            NativeText::Bytes(lead.push(right) + right_rest),
        ),
        name_less(NativeText::Bytes(lead), NativeText::Bytes(lead.push(left) + left_rest)),
{
    let common = raised(lead);
    let first = raised(seq![left] + left_rest);
    let second = raised(seq![right] + right_rest);
    assert(raised(lead.push(left) + left_rest) =~= common + first);
    assert(raised(lead.push(right) + right_rest) =~= common + second);
    lemma_common_lead(common, first, second);
    lemma_common_lead(common, Seq::empty(), first);
    assert(common + Seq::<u32>::empty() =~= common);
    assert(first[0] == left + 2 && second[0] == right + 2);
}

} // verus!
