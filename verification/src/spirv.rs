//! Reading a SPIR-V module's interface: its entry points and the locations
//! of its input and output variables.
//!
//! A module is a five-word header followed by instructions; the first word of
//! an instruction holds its word count in the high 16 bits and its opcode in
//! the low 16 bits.
use vstd::prelude::*;

verus! {

/// Opcode of `OpEntryPoint`.
pub open spec fn op_entry_point() -> int {
    15
}

/// Opcode of `OpVariable`.
pub open spec fn op_variable() -> int {
    59
}

/// Opcode of `OpDecorate`.
pub open spec fn op_decorate() -> int {
    71
}

/// The `Location` decoration.
pub open spec fn decoration_location() -> int {
    30
}

/// The `Input` storage class.
pub open spec fn storage_input() -> int {
    1
}

/// The `Output` storage class.
pub open spec fn storage_output() -> int {
    3
}

/// The `Vertex` execution model.
pub open spec fn model_vertex() -> int {
    0
}

/// The `Fragment` execution model.
pub open spec fn model_fragment() -> int {
    4
}

/// The opcode of an instruction's first word.
pub open spec fn opcode(word: u32) -> int {
    word as int % 65536
}

/// The word count of an instruction, from its first word.
pub open spec fn word_count(word: u32) -> int {
    word as int / 65536
}

/// Stepping over whole instructions from word `from` reaches word `at`.
pub open spec fn reaches(words: Seq<u32>, from: int, at: int) -> bool
    decreases at - from,
{
    if from >= at {
        from == at
    } else {
        &&& 0 <= from < words.len()
        &&& word_count(words[from]) > 0
        &&& from + word_count(words[from]) <= at
        &&& reaches(words, from + word_count(words[from]), at)
    }
}

/// An instruction of the module starts at word `at`.
pub open spec fn instruction_at(words: Seq<u32>, at: int) -> bool {
    0 <= at < words.len() && reaches(words, 5, at)
}

/// The character at `index` of `name` as a number, or 0 past its end.
pub open spec fn char_code(name: Seq<char>, index: int) -> int {
    if 0 <= index < name.len() {
        name[index] as int
    } else {
        0
    }
}

/// The words of `name` as a SPIR-V literal string: its characters four to a
/// word, the first in the low byte, ending with at least one zero byte.
pub open spec fn literal_string(name: Seq<char>) -> Seq<int> {
    Seq::new(
        (name.len() / 4 + 1) as nat,
        |k: int|
            char_code(name, 4 * k) + char_code(name, 4 * k + 1) * 256 + char_code(name, 4 * k + 2)
                * 65536 + char_code(name, 4 * k + 3) * 16777216,
    )
}

/// The module declares an entry point of execution model `model` named
/// `name`.
pub open spec fn declares_entry_point(words: Seq<u32>, model: int, name: Seq<char>) -> bool {
    exists|at: int|
        {
            &&& #[trigger] instruction_at(words, at)
            &&& opcode(words[at]) == op_entry_point()
            &&& words[at + 1] == model
            &&& at + 3 + literal_string(name).len() <= words.len()
            &&& forall|k: int|
                0 <= k < literal_string(name).len() ==> words[at + 3 + k] == #[trigger] literal_string(
                    name,
                )[k]
        }
}

/// The module has a variable of storage class `storage` decorated with
/// `Location` `location`.
pub open spec fn declares_location(words: Seq<u32>, storage: int, location: int) -> bool {
    exists|decoration: int, variable: int|
        {
            &&& #[trigger] instruction_at(words, decoration)
            &&& #[trigger] instruction_at(words, variable)
            &&& decoration + 3 < words.len() && variable + 3 < words.len()
            &&& opcode(words[decoration]) == op_decorate()
            &&& words[decoration + 2] == decoration_location()
            &&& words[decoration + 3] == location
            &&& opcode(words[variable]) == op_variable()
            &&& words[variable + 2] == words[decoration + 1]
            &&& words[variable + 3] == storage
        }
}

} // verus!

verus! {

/// Stepping over one more instruction in front keeps `at` reachable.
pub proof fn lemma_reaches_chain(words: Seq<u32>, starts: Seq<int>)
    requires
        starts.len() >= 1,
        forall|j: int|
            0 <= j < starts.len() - 1 ==> {
                &&& 0 <= #[trigger] starts[j] < words.len()
                &&& word_count(words[starts[j]]) > 0
                &&& starts[j + 1] == starts[j] + word_count(words[starts[j]])
            },
    ensures
        reaches(words, starts[0], starts.last()),
    decreases starts.len(),
{
    if starts.len() > 1 {
        let rest = starts.drop_first();
        assert forall|j: int| 0 <= j < rest.len() - 1 implies {
            &&& 0 <= #[trigger] rest[j] < words.len()
            &&& word_count(words[rest[j]]) > 0
            &&& rest[j + 1] == rest[j] + word_count(words[rest[j]])
        } by {
            assert(rest[j] == starts[j + 1]);
            assert(rest[j + 1] == starts[j + 2]);
        }
        lemma_reaches_chain(words, rest);
        assert(starts[0] < rest[0]);
        assert(rest.last() == starts.last());
        lemma_reaches_monotone(words, starts[0], rest[0], starts.last());
    }
}

proof fn lemma_reaches_monotone(words: Seq<u32>, from: int, next: int, at: int)
    requires
        0 <= from < words.len(),
        word_count(words[from]) > 0,
        next == from + word_count(words[from]),
        reaches(words, next, at),
    ensures
        reaches(words, from, at),
    decreases at - from,
{
    assert(next <= at);
}

} // verus!


verus! {

/// An instruction with opcode `op` and `count` words starts at word `at`.
pub open spec fn instruction(words: Seq<u32>, at: int, op: int, count: int) -> bool {
    &&& instruction_at(words, at)
    &&& opcode(words[at]) == op
    &&& word_count(words[at]) == count
    &&& at + count <= words.len()
}

/// `variable` is the result id of a variable of storage class `storage`
/// decorated with `Location` `location`.
pub open spec fn variable_at_location(words: Seq<u32>, variable: int, storage: int, location: int) -> bool {
    exists|decoration: int, declaration: int|
        {
            &&& #[trigger] instruction(words, decoration, op_decorate(), 4)
            &&& words[decoration + 1] == variable
            &&& words[decoration + 2] == decoration_location()
            &&& words[decoration + 3] == location
            &&& #[trigger] instruction(words, declaration, op_variable(), 4)
            &&& words[declaration + 2] == variable
            &&& words[declaration + 3] == storage
        }
}

/// `result` is loaded (`OpLoad`) through the pointer `pointer`.
pub open spec fn loads(words: Seq<u32>, result: int, pointer: int) -> bool {
    exists|at: int|
        #[trigger] instruction(words, at, 61, 4) && words[at + 2] == result && words[at + 3]
            == pointer
}

/// `object` is stored (`OpStore`) through the pointer `pointer`.
pub open spec fn stores(words: Seq<u32>, pointer: int, object: int) -> bool {
    exists|at: int|
        #[trigger] instruction(words, at, 62, 3) && words[at + 1] == pointer && words[at + 2]
            == object
}

/// `result` is component `index` of the composite `composite`
/// (`OpCompositeExtract`).
pub open spec fn extracts(words: Seq<u32>, result: int, composite: int, index: int) -> bool {
    exists|at: int|
        #[trigger] instruction(words, at, 81, 5) && words[at + 2] == result && words[at + 3]
            == composite && words[at + 4] == index
}

/// `result` is the four-component vector `(c0, c1, c2, c3)`
/// (`OpCompositeConstruct`).
pub open spec fn constructs_vec4(
    words: Seq<u32>,
    result: int,
    c0: int,
    c1: int,
    c2: int,
    c3: int,
) -> bool {
    exists|at: int|
        {
            &&& #[trigger] instruction(words, at, 80, 7)
            &&& words[at + 2] == result
            &&& words[at + 3] == c0 && words[at + 4] == c1
            &&& words[at + 5] == c2 && words[at + 6] == c3
        }
}

/// `result` is the vector `vector` times the scalar `scalar`
/// (`OpVectorTimesScalar`).
pub open spec fn scales(words: Seq<u32>, result: int, vector: int, scalar: int) -> bool {
    exists|at: int|
        #[trigger] instruction(words, at, 142, 5) && words[at + 2] == result && words[at + 3]
            == vector && words[at + 4] == scalar
}

/// `id` is a 32-bit constant (`OpConstant`) whose bits are `bits`.
pub open spec fn constant(words: Seq<u32>, id: int, bits: int) -> bool {
    exists|at: int|
        #[trigger] instruction(words, at, 43, 4) && words[at + 2] == id && words[at + 3] == bits
}

/// The bits of the 32-bit float 1.0.
pub open spec fn float_one() -> int {
    0x3F80_0000
}

/// `pointer` points at the built-in `Position` output: it is an access
/// chain, at a constant index 0, into an `Output` variable whose pointee is a
/// block whose member 0 is decorated `BuiltIn Position`.
pub open spec fn points_to_position_output(words: Seq<u32>, pointer: int) -> bool {
    exists|chain: int, variable: int, pointer_type: int, member: int, index: int|
        {
            &&& #[trigger] instruction(words, chain, 65, 5)
            &&& words[chain + 2] == pointer
            &&& words[chain + 4] == index
            &&& #[trigger] constant(words, index, 0)
            &&& #[trigger] instruction(words, variable, op_variable(), 4)
            &&& words[variable + 2] == words[chain + 3]
            &&& words[variable + 3] == storage_output()
            &&& #[trigger] instruction(words, pointer_type, 32, 4)
            &&& words[pointer_type + 1] == words[variable + 1]
            &&& words[pointer_type + 2] == storage_output()
            &&& #[trigger] instruction(words, member, 72, 5)
            &&& words[member + 1] == words[pointer_type + 3]
            &&& words[member + 2] == 0
            &&& words[member + 3] == 11
            &&& words[member + 4] == 0
        }
}

/// The module loads the input at `location`, appends a fourth component 1.0
/// to its first three components, scales the vector by a constant and stores
/// the result into the built-in `Position` output.
pub open spec fn position_from_input(words: Seq<u32>, location: int) -> bool {
    exists|input: int, loaded: int, x: int, y: int, z: int, one: int, vector: int, factor: int,
        bits: int, scaled: int, pointer: int|
        {
            &&& variable_at_location(words, input, storage_input(), location)
            &&& #[trigger] loads(words, loaded, input)
            &&& extracts(words, x, loaded, 0)
            &&& extracts(words, y, loaded, 1)
            &&& extracts(words, z, loaded, 2)
            &&& constant(words, one, float_one())
            &&& #[trigger] constructs_vec4(words, vector, x, y, z, one)
            &&& #[trigger] constant(words, factor, bits)
            &&& #[trigger] scales(words, scaled, vector, factor)
            &&& points_to_position_output(words, pointer)
            &&& #[trigger] stores(words, pointer, scaled)
        }
}

/// The module stores the value it loads from the input at `input_location`,
/// unchanged, into the output at `output_location`.
pub open spec fn passes_input_to_output(
    words: Seq<u32>,
    input_location: int,
    output_location: int,
) -> bool {
    exists|input: int, output: int, value: int|
        {
            &&& #[trigger] variable_at_location(words, input, storage_input(), input_location)
            &&& #[trigger] variable_at_location(words, output, storage_output(), output_location)
            &&& #[trigger] loads(words, value, input)
            &&& stores(words, output, value)
        }
}

/// The module stores into the output at `output_location` the vector made of
/// the first three components of the input at `input_location` and a fourth
/// component 1.0.
pub open spec fn writes_opaque_input(
    words: Seq<u32>,
    input_location: int,
    output_location: int,
) -> bool {
    exists|input: int, output: int, loaded: int, x: int, y: int, z: int, one: int, color: int|
        {
            &&& #[trigger] variable_at_location(words, input, storage_input(), input_location)
            &&& #[trigger] variable_at_location(words, output, storage_output(), output_location)
            &&& #[trigger] loads(words, loaded, input)
            &&& extracts(words, x, loaded, 0)
            &&& extracts(words, y, loaded, 1)
            &&& extracts(words, z, loaded, 2)
            &&& constant(words, one, float_one())
            &&& #[trigger] constructs_vec4(words, color, x, y, z, one)
            &&& stores(words, output, color)
        }
}

/// Every word listed in `starts` begins an instruction, when the list steps
/// over whole instructions from the first instruction.
pub proof fn lemma_instructions_at(words: Seq<u32>, starts: Seq<int>)
    requires
        starts.len() >= 1,
        starts[0] == 5,
        starts.last() < words.len(),
        forall|j: int|
            0 <= j < starts.len() - 1 ==> {
                &&& 0 <= #[trigger] starts[j] < words.len()
                &&& word_count(words[starts[j]]) > 0
                &&& starts[j + 1] == starts[j] + word_count(words[starts[j]])
            },
    ensures
        forall|j: int| 0 <= j < starts.len() ==> instruction_at(words, #[trigger] starts[j]),
{
    assert forall|j: int| 0 <= j < starts.len() implies instruction_at(words, #[trigger] starts[j]) by {
        let prefix = starts.take(j + 1);
        assert forall|k: int| 0 <= k < prefix.len() - 1 implies {
            &&& 0 <= #[trigger] prefix[k] < words.len()
            &&& word_count(words[prefix[k]]) > 0
            &&& prefix[k + 1] == prefix[k] + word_count(words[prefix[k]])
        } by {
            assert(prefix[k] == starts[k]);
            assert(prefix[k + 1] == starts[k + 1]);
        }
        lemma_reaches_chain(words, prefix);
        assert(prefix.last() == starts[j]);
        if j < starts.len() - 1 {
            assert(starts[j] < starts[j + 1]);
        }
        assert(0 <= starts[j] < words.len()) by {
            if j < starts.len() - 1 {
            } else {
                assert(starts[j] == starts.last());
            }
        }
    }
}

} // verus!
