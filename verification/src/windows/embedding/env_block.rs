//! The environment block of an embedded process.

use crate::model;
use crate::native::chars_of;
use crate::order::key_comes_first;
use crate::text::{concat3, to_uppercase};
use crate::utf16::encode_utf16;
use vstd::prelude::*;
use vstd::string::*;

verus! {

/// A variable, by its name and its value.
pub type VariableText = (Seq<char>, Seq<char>);

/// The codes of a text, with room for an end below all of them.
pub open spec fn raised_codes(text: Seq<char>) -> Seq<u32> {
    text.map_values(|ch: char| (ch as u32 + 1) as u32)
}

/// A variable with its name in upper case.
#[derive(Debug)]
pub struct FoldedVariable {
    pub upper: String,
    pub name: String,
    pub value: String,
}

/// What a [`FoldedVariable`] holds.
pub struct FoldedModel {
    pub upper: Seq<char>,
    pub name: Seq<char>,
    pub value: Seq<char>,
}

impl DeepView for FoldedVariable {
    type V = FoldedModel;

    open spec fn deep_view(&self) -> FoldedModel {
        FoldedModel { upper: self.upper@, name: self.name@, value: self.value@ }
    }
}

impl View for FoldedVariable {
    type V = FoldedModel;

    open spec fn view(&self) -> FoldedModel {
        self.deep_view()
    }
}

/// Whether no name of an environment comes twice.
pub open spec fn distinct_names(environment: Seq<VariableText>) -> bool {
    forall|first: int, second: int|
        0 <= first < second < environment.len() ==> (#[trigger] environment[first]).0 != (
        #[trigger] environment[second]).0
}

/// The variables of an environment with their names in upper case.
pub open spec fn folded(environment: Seq<VariableText>) -> Seq<FoldedModel> {
    environment.map_values(
        |variable: VariableText|
            FoldedModel { upper: crate::text::uppercased(variable.0), name: variable.0, value: variable.1 },
    )
}

/// The codes by which a variable compares: by its name in upper case, and then exactly.
pub open spec fn name_codes(variable: FoldedModel) -> Seq<u32> {
    raised_codes(variable.upper).push(0) + raised_codes(variable.name)
}

/// Whether no variable comes before an earlier one.
pub open spec fn in_name_order(variables: Seq<FoldedModel>) -> bool {
    forall|first: int, second: int|
        0 <= first < second < variables.len() ==> !crate::order::key_less(
            name_codes(#[trigger] variables[second]),
            name_codes(#[trigger] variables[first]),
        )
}

/// The units of one variable, ended by a zero.
pub open spec fn variable_units(variable: FoldedModel) -> Seq<u16> {
    crate::utf16::encoded(variable.name + "="@ + variable.value).push(0)
}

/// The units of some variables, one after the other.
pub open spec fn all_units(variables: Seq<FoldedModel>) -> Seq<u16>
    decreases variables.len(),
{
    if variables.len() == 0 {
        Seq::empty()
    } else {
        all_units(variables.drop_last()) + variable_units(variables.last())
    }
}

/// The block of some variables: their units and a final zero. An empty block has two.
pub open spec fn block_of(variables: Seq<FoldedModel>) -> Seq<u16> {
    if variables.len() == 0 {
        seq![0u16, 0u16]
    } else {
        all_units(variables).push(0)
    }
}

/// Whether this is the block of some variables in the order of their names.
pub open spec fn is_block_by(block: Seq<u16>, variables: Seq<FoldedModel>) -> bool {
    exists|ordered: Seq<FoldedModel>|
        #[trigger] in_name_order(ordered) && ordered.to_multiset() == variables.to_multiset() && block == block_of(
            ordered,
        )
}

/// Whether this is the block of an environment: that of its variables in the order of
/// their names without regard to case.
pub open spec fn is_block_of(block: Seq<u16>, environment: Seq<VariableText>) -> bool {
    is_block_by(block, folded(environment))
}

fn push_raised(codes: &mut Vec<u32>, text: &str)
    ensures
        final(codes)@ == old(codes)@ + raised_codes(text@),
{
    let ghost start = codes@;
    let ghost added = raised_codes(text@);
    let chars = chars_of(text);
    assert(start + added.take(0) =~= start);
    for index in 0..chars.len()
        invariant
            chars@ == text@,
            added == raised_codes(text@),
            codes@ == start + added.take(index as int),
    {
        let code: u32 = chars[index] as u32;
        proof {
            vstd::utf8::char_is_scalar(chars@[index as int]);
        }
        codes.push(code + 1);
        assert(codes@ =~= start + added.take(index + 1));
    }
    assert(added.take(added.len() as int) =~= added);
}

fn codes_of_name(variable: &FoldedVariable) -> (result: Vec<u32>)
    ensures
        result@ == name_codes(variable@),
{
    let mut codes: Vec<u32> = Vec::new();
    push_raised(&mut codes, variable.upper.as_str());
    codes.push(0);
    push_raised(&mut codes, variable.name.as_str());
    assert(codes@ =~= name_codes(variable@));
    codes
}

proof fn lemma_insert_keeps_order(ordered: Seq<FoldedModel>, place: int, variable: FoldedModel)
    requires
        in_name_order(ordered),
        0 <= place <= ordered.len(),
        forall|i: int|
            0 <= i < place ==> !crate::order::key_less(name_codes(variable), name_codes(#[trigger] ordered[i])),
        place < ordered.len() ==> crate::order::key_less(name_codes(variable), name_codes(ordered[place])),
    ensures
        in_name_order(ordered.insert(place, variable)),
        ordered.insert(place, variable).to_multiset() == ordered.to_multiset().insert(variable),
{
    let inserted = ordered.insert(place, variable);
    assert forall|first: int, second: int| 0 <= first < second < inserted.len() implies !crate::order::key_less(
        name_codes(#[trigger] inserted[second]),
        name_codes(#[trigger] inserted[first]),
    ) by {
        let own = name_codes(variable);
        if first < place && second < place {
            assert(inserted[first] == ordered[first] && inserted[second] == ordered[second]);
        } else if first < place && second == place {
            assert(inserted[first] == ordered[first]);
        } else if first < place {
            assert(inserted[first] == ordered[first] && inserted[second] == ordered[second - 1]);
        } else if first == place {
            assert(inserted[second] == ordered[second - 1]);
            let next = name_codes(ordered[place]);
            let other = name_codes(ordered[second - 1]);
            crate::order::lemma_key_less_total(next, other);
            if second - 1 > place {
                assert(!crate::order::key_less(other, next));
            }
            if crate::order::key_less(next, other) {
                crate::order::lemma_key_less_transitive(own, next, other);
            }
            crate::order::lemma_key_less_total(own, other);
        } else {
            assert(inserted[first] == ordered[first - 1] && inserted[second] == ordered[second - 1]);
        }
    }
    broadcast use vstd::seq_lib::group_to_multiset_ensures;

    assert(inserted.remove(place) =~= ordered);
    assert(inserted[place] == variable);
    assert(inserted.contains(variable));
    assert(inserted.to_multiset().remove(variable) == ordered.to_multiset());
    assert(inserted.to_multiset() =~= ordered.to_multiset().insert(variable));
}

/// The variables in the order of their names.
fn order_variables(environment: &Vec<FoldedVariable>) -> (result: Vec<FoldedVariable>)
    ensures
        in_name_order(result.deep_view()),
        result.deep_view().to_multiset() == environment.deep_view().to_multiset(),
{
    let ghost models = environment.deep_view();
    let mut ordered: Vec<FoldedVariable> = Vec::new();
    let mut keys: Vec<Vec<u32>> = Vec::new();
    assert(ordered.deep_view() =~= models.take(0));
    for index in 0..environment.len()
        invariant
            models == environment.deep_view(),
            keys@.len() == ordered@.len(),
            forall|i: int| 0 <= i < keys@.len() ==> (#[trigger] keys@[i])@ == name_codes(ordered.deep_view()[i]),
            in_name_order(ordered.deep_view()),
            ordered.deep_view().to_multiset() == models.take(index as int).to_multiset(),
    {
        let variable = FoldedVariable {
            upper: environment[index].upper.clone(),
            name: environment[index].name.clone(),
            value: environment[index].value.clone(),
        };
        let key = codes_of_name(&variable);
        let mut place: usize = 0;
        while place < keys.len() && !key_comes_first(&key, &keys[place])
            invariant
                keys@.len() == ordered@.len(),
                forall|i: int| 0 <= i < keys@.len() ==> (#[trigger] keys@[i])@ == name_codes(ordered.deep_view()[i]),
                key@ == name_codes(variable@),
                place <= keys@.len(),
                forall|i: int| 0 <= i < place ==> !crate::order::key_less(key@, (#[trigger] keys@[i])@),
            decreases keys@.len() - place,
        {
            place = place + 1;
        }
        let ghost before = ordered;
        let ghost before_keys = keys@;
        proof {
            let models_before = ordered.deep_view();
            assert forall|i: int| 0 <= i < place implies !crate::order::key_less(
                name_codes(variable.deep_view()),
                name_codes(#[trigger] models_before[i]),
            ) by {
                assert(keys@[i]@ == name_codes(models_before[i]));
            }
            if place < ordered@.len() {
                assert(keys@[place as int]@ == name_codes(models_before[place as int]));
            }
            lemma_insert_keeps_order(models_before, place as int, variable.deep_view());
        }
        ordered.insert(place, variable);
        keys.insert(place, key);
        proof {
            broadcast use vstd::seq_lib::group_to_multiset_ensures;

            assert(ordered.deep_view() =~= before.deep_view().insert(place as int, variable.deep_view()));
            assert(models[index as int] == environment@[index as int].deep_view());
            assert(models.take(index + 1) =~= models.take(index as int).push(models[index as int]));
            assert forall|i: int| 0 <= i < keys@.len() implies (#[trigger] keys@[i])@ == name_codes(
                ordered.deep_view()[i],
            ) by {
                if i < place {
                    assert(keys@[i] == before_keys[i]);
                    assert(ordered.deep_view()[i] == before.deep_view()[i]);
                } else if i > place {
                    assert(keys@[i] == before_keys[i - 1]);
                    assert(ordered.deep_view()[i] == before.deep_view()[i - 1]);
                }
            }
        }
    }
    assert(models.take(models.len() as int) =~= models);
    ordered
}

/// The environment block of variables whose names are given in upper case too: every one
/// as `name=value`, ended by a zero, in the order of the upper-case names and then of the
/// names, and a final zero.
pub fn env_block_by_name(variables: &Vec<FoldedVariable>) -> (result: Vec<u16>)
    ensures
        is_block_by(result@, variables.deep_view()),
{
    let ordered = order_variables(variables);
    let ghost models = ordered.deep_view();
    let mut block: Vec<u16> = Vec::new();
    assert(block@ =~= all_units(models.take(0)));
    for index in 0..ordered.len()
        invariant
            models == ordered.deep_view(),
            block@ == all_units(models.take(index as int)),
    {
        let entry = concat3(ordered[index].name.as_str(), "=", ordered[index].value.as_str());
        let mut units = encode_utf16(entry.as_str());
        units.push(0);
        block.append(&mut units);
        proof {
            assert(models[index as int] == ordered@[index as int].deep_view());
            assert(models.take(index + 1).drop_last() =~= models.take(index as int));
            assert(block@ =~= all_units(models.take(index + 1)));
        }
    }
    assert(models.take(models.len() as int) =~= models);
    if ordered.len() == 0 {
        block.push(0);
    }
    block.push(0);
    assert(block@ =~= block_of(models));
    block
}

/// The environment block of a process: every variable as `name=value`, ended by a zero,
/// in the order of the names without regard to case, and a final zero. The environment
/// stands for a map: no name comes twice.
pub fn make_embedding_env_block(environment: &Vec<(String, String)>) -> (result: Vec<u16>)
    requires
        distinct_names(environment.deep_view()),
    ensures
        is_block_of(result@, environment.deep_view()),
{
    let ghost models = folded(environment.deep_view());
    let mut variables: Vec<FoldedVariable> = Vec::new();
    assert(variables.deep_view() =~= models.take(0));
    for index in 0..environment.len()
        invariant
            models == folded(environment.deep_view()),
            variables.deep_view() == models.take(index as int),
    {
        let ghost before = variables;
        let name = environment[index].0.clone();
        let variable = FoldedVariable {
            upper: to_uppercase(name.as_str()),
            name,
            value: environment[index].1.clone(),
        };
        variables.push(variable);
        proof {
            model::lemma_deep_push(before, variables, variable);
            assert(environment.deep_view()[index as int] == environment@[index as int].deep_view());
            assert(models[index as int] == variable@);
            model::lemma_take_push(models, index as int);
        }
    }
    proof {
        model::lemma_take_all(models);
    }
    env_block_by_name(&variables)
}

proof fn lemma_name_codes_differ(left: FoldedModel, right: FoldedModel)
    requires
        name_codes(left) == name_codes(right),
    ensures
        left.name == right.name,
{
    let left_upper = raised_codes(left.upper);
    let right_upper = raised_codes(right.upper);
    let left_codes = name_codes(left);
    let right_codes = name_codes(right);
    assert forall|text: Seq<char>, index: int| 0 <= index < text.len() implies #[trigger] raised_codes(text)[index] != 0 by {
        vstd::utf8::char_is_scalar(text[index]);
    }
    if left_upper.len() < right_upper.len() {
        assert(left_codes[left_upper.len() as int] == 0);
        assert(right_codes[left_upper.len() as int] == right_upper[left_upper.len() as int]);
    }
    if right_upper.len() < left_upper.len() {
        assert(right_codes[right_upper.len() as int] == 0);
        assert(left_codes[right_upper.len() as int] == left_upper[right_upper.len() as int]);
    }
    let start = left_upper.len() + 1;
    assert(left_codes.skip(start as int) =~= raised_codes(left.name));
    assert(right_codes.skip(start as int) =~= raised_codes(right.name));
    assert(left.name.len() == right.name.len());
    assert forall|index: int| 0 <= index < left.name.len() implies left.name[index] == right.name[index] by {
        assert(raised_codes(left.name)[index] == raised_codes(right.name)[index]);
        vstd::utf8::char_is_scalar(left.name[index]);
        vstd::utf8::char_is_scalar(right.name[index]);
        vstd::utf8::char_u32_cast(left.name[index], left.name[index] as u32);
        vstd::utf8::char_u32_cast(right.name[index], right.name[index] as u32);
        assert(left.name[index] as u32 == right.name[index] as u32);
    }
    assert(left.name =~= right.name);
}

/// Whether no two variables have the same name.
pub open spec fn names_differ(variables: Seq<FoldedModel>) -> bool {
    forall|first: int, second: int|
        0 <= first < second < variables.len() ==> (#[trigger] variables[first]).name != (#[trigger] variables[second]).name
}

spec fn names_tell_apart(variables: Seq<FoldedModel>) -> bool {
    forall|first: int, second: int|
        0 <= first < variables.len() && 0 <= second < variables.len() && (#[trigger] variables[first]).name == (
        #[trigger] variables[second]).name ==> variables[first] == variables[second]
}

proof fn lemma_order_is_unique(left: Seq<FoldedModel>, right: Seq<FoldedModel>)
    requires
        in_name_order(left),
        in_name_order(right),
        left.to_multiset() == right.to_multiset(),
        names_tell_apart(left),
    ensures
        left == right,
    decreases left.len(),
{
    broadcast use vstd::seq_lib::group_to_multiset_ensures;

    assert(left.len() == left.to_multiset().len());
    assert(right.len() == right.to_multiset().len());
    if left.len() > 0 {
        assert(left.contains(left[0]));
        assert(right.contains(right[0]));
        assert(left.to_multiset().count(left[0]) > 0);
        assert(right.to_multiset().count(right[0]) > 0);
        assert(right.contains(left[0]));
        assert(left.contains(right[0]));
        let in_right = choose|index: int| 0 <= index < right.len() && right[index] == left[0];
        let in_left = choose|index: int| 0 <= index < left.len() && left[index] == right[0];
        let left_key = name_codes(left[0]);
        let right_key = name_codes(right[0]);
        crate::order::lemma_key_less_total(left_key, right_key);
        if in_right > 0 {
            assert(!crate::order::key_less(name_codes(right[in_right]), name_codes(right[0])));
        }
        if in_left > 0 {
            assert(!crate::order::key_less(name_codes(left[in_left]), name_codes(left[0])));
        }
        assert(left_key == right_key);
        lemma_name_codes_differ(left[0], right[0]);
        assert(left[in_left].name == left[0].name);
        assert(left[0] == right[0]);
        let left_rest = left.remove(0);
        let right_rest = right.remove(0);
        assert forall|first: int, second: int| 0 <= first < second < left_rest.len() implies !crate::order::key_less(
            name_codes(#[trigger] left_rest[second]),
            name_codes(#[trigger] left_rest[first]),
        ) by {
            assert(left_rest[first] == left[first + 1] && left_rest[second] == left[second + 1]);
        }
        assert forall|first: int, second: int| 0 <= first < second < right_rest.len() implies !crate::order::key_less(
            name_codes(#[trigger] right_rest[second]),
            name_codes(#[trigger] right_rest[first]),
        ) by {
            assert(right_rest[first] == right[first + 1] && right_rest[second] == right[second + 1]);
        }
        assert forall|first: int, second: int|
            0 <= first < left_rest.len() && 0 <= second < left_rest.len() && (#[trigger] left_rest[first]).name == (
            #[trigger] left_rest[second]).name implies left_rest[first] == left_rest[second] by {
            assert(left_rest[first] == left[first + 1] && left_rest[second] == left[second + 1]);
        }
        lemma_order_is_unique(left_rest, right_rest);
        assert(left =~= seq![left[0]] + left_rest);
        assert(right =~= seq![right[0]] + right_rest);
    } else {
        assert(left =~= right);
    }
}

/// Variables of which no two have the same name have exactly one block.
pub proof fn variable_blocks_are_unique(environment: Seq<FoldedModel>, left: Seq<u16>, right: Seq<u16>)
    requires
        names_differ(environment),
        is_block_by(left, environment),
        is_block_by(right, environment),
    ensures
        left == right,
{
    broadcast use vstd::seq_lib::group_to_multiset_ensures;

    let first = choose|ordered: Seq<FoldedModel>|
        #[trigger] in_name_order(ordered) && ordered.to_multiset() == environment.to_multiset() && left == block_of(
            ordered,
        );
    let second = choose|ordered: Seq<FoldedModel>|
        #[trigger] in_name_order(ordered) && ordered.to_multiset() == environment.to_multiset() && right == block_of(
            ordered,
        );
    assert forall|one: int, other: int|
        0 <= one < first.len() && 0 <= other < first.len() && (#[trigger] first[one]).name == (#[trigger] first[other]).name
        implies first[one] == first[other] by {
        assert(first.contains(first[one]));
        assert(first.contains(first[other]));
        assert(first.to_multiset().count(first[one]) > 0);
        assert(first.to_multiset().count(first[other]) > 0);
        assert(environment.contains(first[one]));
        assert(environment.contains(first[other]));
        let place = choose|place: int| 0 <= place < environment.len() && environment[place] == first[one];
        let second_place = choose|place: int| 0 <= place < environment.len() && environment[place] == first[other];
        if place < second_place {
            assert(environment[place].name != environment[second_place].name);
        }
        if second_place < place {
            assert(environment[second_place].name != environment[place].name);
        }
    }
    lemma_order_is_unique(first, second);
}

/// An environment in which no name comes twice has exactly one block.
pub proof fn environment_blocks_are_unique(environment: Seq<VariableText>, left: Seq<u16>, right: Seq<u16>)
    requires
        distinct_names(environment),
        is_block_of(left, environment),
        is_block_of(right, environment),
    ensures
        left == right,
{
    let variables = folded(environment);
    assert forall|first: int, second: int| 0 <= first < second < variables.len() implies (
    #[trigger] variables[first]).name != (#[trigger] variables[second]).name by {
        assert(environment[first].0 != environment[second].0);
    }
    variable_blocks_are_unique(variables, left, right);
}

/// Whether the units of a variable stand at a place: its name, an equals sign and its value,
/// and a zero.
pub open spec fn holds_variable(block: Seq<u16>, place: int, name: Seq<char>, value: Seq<char>) -> bool {
    let units = crate::utf16::encoded(name + "="@ + value);
    &&& 0 <= place
    &&& place + units.len() < block.len() - 1
    &&& block.subrange(place, place + units.len()) == units
    &&& block[place + units.len()] == 0
}

proof fn lemma_units_stand(variables: Seq<FoldedModel>, index: int) -> (place: int)
    requires
        0 <= index < variables.len(),
    ensures
        ({
            let units = variable_units(variables[index]);
            0 <= place && place + units.len() <= all_units(variables).len() && all_units(variables).subrange(
                place,
                place + units.len(),
            ) == units
        }),
    decreases variables.len(),
{
    let before = all_units(variables.drop_last());
    let whole = all_units(variables);
    let units = variable_units(variables[index]);
    if index == variables.len() - 1 {
        assert(whole.subrange(before.len() as int, (before.len() + units.len()) as int) =~= units);
        before.len() as int
    } else {
        let place = lemma_units_stand(variables.drop_last(), index);
        assert(variables.drop_last()[index] == variables[index]);
        assert(whole.subrange(place, place + units.len()) =~= before.subrange(place, place + units.len()));
        place
    }
}

/// A block holds every variable of the environment as its name, an equals sign and its
/// value, each ended by a zero, and ends with one zero more.
pub proof fn blocks_hold_every_variable(block: Seq<u16>, environment: Seq<VariableText>, index: int)
    requires
        is_block_of(block, environment),
        0 <= index < environment.len(),
    ensures
        exists|place: int| holds_variable(block, place, environment[index].0, environment[index].1),
        block.last() == 0,
{
    let variables = folded(environment);
    let ordered = choose|ordered: Seq<FoldedModel>|
        #[trigger] in_name_order(ordered) && ordered.to_multiset() == variables.to_multiset() && block == block_of(
            ordered,
        );
    let variable = variables[index];
    broadcast use vstd::seq_lib::group_to_multiset_ensures;

    assert(variables.contains(variable));
    assert(variables.to_multiset().count(variable) > 0);
    assert(ordered.to_multiset().count(variable) > 0);
    assert(ordered.contains(variable));
    let at = choose|at: int| 0 <= at < ordered.len() && ordered[at] == variable;
    let place = lemma_units_stand(ordered, at);
    let units = crate::utf16::encoded(variable.name + "="@ + variable.value);
    let whole = all_units(ordered);
    let own = variable_units(variable);
    assert(block == whole.push(0));
    assert(block.subrange(place, place + units.len()) =~= own.subrange(0, units.len() as int)) by {
        assert forall|i: int| 0 <= i < units.len() implies block[place + i] == own[i] by {
            assert(whole.subrange(place, place + own.len())[i] == own[i]);
        }
    }
    assert(own.subrange(0, units.len() as int) =~= units);
    assert(whole.subrange(place, place + own.len())[units.len() as int] == own[units.len() as int]);
    assert(holds_variable(block, place, variable.name, variable.value));
}

/// An empty environment is a block of two zeros.
pub proof fn empty_blocks_are_two_zeros(block: Seq<u16>)
    requires
        is_block_of(block, Seq::<VariableText>::empty()),
    ensures
        block == seq![0u16, 0u16],
{
    let variables = folded(Seq::<VariableText>::empty());
    let ordered = choose|ordered: Seq<FoldedModel>|
        #[trigger] in_name_order(ordered) && ordered.to_multiset() == variables.to_multiset() && block == block_of(
            ordered,
        );
    broadcast use vstd::seq_lib::group_to_multiset_ensures;

    assert(variables.to_multiset().len() == 0);
    assert(ordered.to_multiset().len() == ordered.len());
}

proof fn lemma_ended_lead(left: Seq<u32>, right: Seq<u32>, left_rest: Seq<u32>, right_rest: Seq<u32>)
    requires
        forall|index: int| 0 <= index < left.len() ==> (#[trigger] left[index]) > 0,
        forall|index: int| 0 <= index < right.len() ==> (#[trigger] right[index]) > 0,
    ensures
        crate::order::key_less(left.push(0) + left_rest, right.push(0) + right_rest) <==> crate::order::key_less(
            left,
            right,
        ) || (left == right && crate::order::key_less(left_rest, right_rest)),
    decreases left.len(),
{
    let first = left.push(0) + left_rest;
    let second = right.push(0) + right_rest;
    if left.len() > 0 && right.len() > 0 {
        assert(first[0] == left[0] && second[0] == right[0]);
        assert(first.drop_first() =~= left.drop_first().push(0) + left_rest);
        assert(second.drop_first() =~= right.drop_first().push(0) + right_rest);
        lemma_ended_lead(left.drop_first(), right.drop_first(), left_rest, right_rest);
        if left[0] == right[0] && left.drop_first() == right.drop_first() {
            assert(left =~= seq![left[0]] + left.drop_first());
            assert(right =~= seq![right[0]] + right.drop_first());
        }
    } else if left.len() == 0 && right.len() == 0 {
        assert(left =~= right);
        assert(first.drop_first() =~= left_rest);
        assert(second.drop_first() =~= right_rest);
    } else if left.len() == 0 {
        assert(first[0] == 0);
        assert(second[0] == right[0]);
    } else {
        assert(first[0] == left[0]);
        assert(second[0] == 0);
    }
}

/// Variables compare by their names in upper case, and only where those are the same by
/// the names as they are.
pub proof fn variables_compare_without_regard_to_case(left: FoldedModel, right: FoldedModel)
    ensures
        crate::order::key_less(name_codes(left), name_codes(right)) <==> {
            ||| crate::order::key_less(raised_codes(left.upper), raised_codes(right.upper))
            ||| raised_codes(left.upper) == raised_codes(right.upper) && crate::order::key_less(
                raised_codes(left.name),
                raised_codes(right.name),
            )
        },
{
    assert forall|index: int| 0 <= index < raised_codes(left.upper).len() implies (
    #[trigger] raised_codes(left.upper)[index]) > 0 by {
        vstd::utf8::char_is_scalar(left.upper[index]);
    }
    assert forall|index: int| 0 <= index < raised_codes(right.upper).len() implies (
    #[trigger] raised_codes(right.upper)[index]) > 0 by {
        vstd::utf8::char_is_scalar(right.upper[index]);
    }
    lemma_ended_lead(
        raised_codes(left.upper),
        raised_codes(right.upper),
        raised_codes(left.name),
        raised_codes(right.name),
    );
}

} // verus!
