//! The two precompiled SPIR-V shader modules of the renderer.
//!
//! The vertex shader reads a position (location 0) and a color (location 1),
//! passes the color on and scales the position; the fragment shader writes the
//! interpolated color with an alpha of one. Both have the entry point `main`.
use vstd::prelude::*;

verus! {

/// The first word of every SPIR-V module.
pub const SPIRV_MAGIC: u32 = 0x0723_0203;

/// The version word of a SPIR-V 1.0 module.
pub const SPIRV_VERSION_1_0: u32 = 0x0001_0000;

/// Number of words in the vertex shader module.
pub const VERTEX_SHADER_WORDS: usize = 220;

/// Number of words in the fragment shader module.
pub const FRAGMENT_SHADER_WORDS: usize = 143;

/// The words of the vertex shader module.
pub open spec fn vertex_shader_module() -> Seq<u32> {
    seq![
        119734787u32, 65536u32, 524295u32, 30u32, 0u32, 131089u32, 1u32, 393227u32,
        1u32, 1280527431u32, 1685353262u32, 808793134u32, 0u32, 196622u32, 0u32, 1u32,
        589839u32, 0u32, 4u32, 1852399981u32, 0u32, 9u32, 11u32, 16u32,
        20u32, 196611u32, 2u32, 450u32, 589828u32, 1096764487u32, 1935622738u32, 1918988389u32,
        1600484449u32, 1684105331u32, 1868526181u32, 1667590754u32, 29556u32, 589828u32, 1096764487u32, 1935622738u32,
        1768186216u32, 1818191726u32, 1969712737u32, 1600481121u32, 1882206772u32, 7037793u32, 262149u32, 4u32,
        1852399981u32, 0u32, 327685u32, 9u32, 1131705711u32, 1919904879u32, 0u32, 262149u32,
        11u32, 1866690153u32, 7499628u32, 393221u32, 14u32, 1348430951u32, 1700164197u32, 2019914866u32,
        0u32, 393222u32, 14u32, 0u32, 1348430951u32, 1953067887u32, 7237481u32, 196613u32,
        16u32, 0u32, 262149u32, 20u32, 1867542121u32, 115u32, 262215u32, 9u32,
        30u32, 0u32, 262215u32, 11u32, 30u32, 1u32, 327752u32, 14u32,
        0u32, 11u32, 0u32, 196679u32, 14u32, 2u32, 262215u32, 20u32,
        30u32, 0u32, 131091u32, 2u32, 196641u32, 3u32, 2u32, 196630u32,
        6u32, 32u32, 262167u32, 7u32, 6u32, 3u32, 262176u32, 8u32,
        3u32, 7u32, 262203u32, 8u32, 9u32, 3u32, 262176u32, 10u32,
        1u32, 7u32, 262203u32, 10u32, 11u32, 1u32, 262167u32, 13u32,
        6u32, 4u32, 196638u32, 14u32, 13u32, 262176u32, 15u32, 3u32,
        14u32, 262203u32, 15u32, 16u32, 3u32, 262165u32, 17u32, 32u32,
        1u32, 262187u32, 17u32, 18u32, 0u32, 262187u32, 6u32, 19u32,
        1048576000u32, 262203u32, 10u32, 20u32, 1u32, 262187u32, 6u32, 22u32,
        1065353216u32, 262176u32, 28u32, 3u32, 13u32, 327734u32, 2u32, 4u32,
        0u32, 3u32, 131320u32, 5u32, 262205u32, 7u32, 12u32, 11u32,
        196670u32, 9u32, 12u32, 262205u32, 7u32, 21u32, 20u32, 327761u32,
        6u32, 23u32, 21u32, 0u32, 327761u32, 6u32, 24u32, 21u32,
        1u32, 327761u32, 6u32, 25u32, 21u32, 2u32, 458832u32, 13u32,
        26u32, 23u32, 24u32, 25u32, 22u32, 327822u32, 13u32, 27u32,
        26u32, 19u32, 327745u32, 28u32, 29u32, 16u32, 18u32, 196670u32,
        29u32, 27u32, 65789u32, 65592u32,
    ]
}

/// The words of the fragment shader module.
pub open spec fn fragment_shader_module() -> Seq<u32> {
    seq![
        119734787u32, 65536u32, 524295u32, 19u32, 0u32, 131089u32, 1u32, 393227u32,
        1u32, 1280527431u32, 1685353262u32, 808793134u32, 0u32, 196622u32, 0u32, 1u32,
        458767u32, 4u32, 4u32, 1852399981u32, 0u32, 9u32, 12u32, 196624u32,
        4u32, 7u32, 196611u32, 2u32, 450u32, 589828u32, 1096764487u32, 1935622738u32,
        1918988389u32, 1600484449u32, 1684105331u32, 1868526181u32, 1667590754u32, 29556u32, 589828u32, 1096764487u32,
        1935622738u32, 1768186216u32, 1818191726u32, 1969712737u32, 1600481121u32, 1882206772u32, 7037793u32, 262149u32,
        4u32, 1852399981u32, 0u32, 393221u32, 9u32, 1182037359u32, 1130848626u32, 1919904879u32,
        0u32, 262149u32, 12u32, 1866690153u32, 7499628u32, 262215u32, 9u32, 30u32,
        0u32, 262215u32, 12u32, 30u32, 0u32, 131091u32, 2u32, 196641u32,
        3u32, 2u32, 196630u32, 6u32, 32u32, 262167u32, 7u32, 6u32,
        4u32, 262176u32, 8u32, 3u32, 7u32, 262203u32, 8u32, 9u32,
        3u32, 262167u32, 10u32, 6u32, 3u32, 262176u32, 11u32, 1u32,
        10u32, 262203u32, 11u32, 12u32, 1u32, 262187u32, 6u32, 14u32,
        1065353216u32, 327734u32, 2u32, 4u32, 0u32, 3u32, 131320u32, 5u32,
        262205u32, 10u32, 13u32, 12u32, 327761u32, 6u32, 15u32, 13u32,
        0u32, 327761u32, 6u32, 16u32, 13u32, 1u32, 327761u32, 6u32,
        17u32, 13u32, 2u32, 458832u32, 7u32, 18u32, 15u32, 16u32,
        17u32, 14u32, 196670u32, 9u32, 18u32, 65789u32, 65592u32,
    ]
}

/// The vertex shader module, as the words handed to the GPU.
pub fn vertex_shader_spirv() -> (words: Vec<u32>)
    ensures
        words@ == vertex_shader_module(),
{
    let words: Vec<u32> = vec![
        119734787, 65536, 524295, 30, 0, 131089, 1, 393227,
        1, 1280527431, 1685353262, 808793134, 0, 196622, 0, 1,
        589839, 0, 4, 1852399981, 0, 9, 11, 16,
        20, 196611, 2, 450, 589828, 1096764487, 1935622738, 1918988389,
        1600484449, 1684105331, 1868526181, 1667590754, 29556, 589828, 1096764487, 1935622738,
        1768186216, 1818191726, 1969712737, 1600481121, 1882206772, 7037793, 262149, 4,
        1852399981, 0, 327685, 9, 1131705711, 1919904879, 0, 262149,
        11, 1866690153, 7499628, 393221, 14, 1348430951, 1700164197, 2019914866,
        0, 393222, 14, 0, 1348430951, 1953067887, 7237481, 196613,
        16, 0, 262149, 20, 1867542121, 115, 262215, 9,
        30, 0, 262215, 11, 30, 1, 327752, 14,
        0, 11, 0, 196679, 14, 2, 262215, 20,
        30, 0, 131091, 2, 196641, 3, 2, 196630,
        6, 32, 262167, 7, 6, 3, 262176, 8,
        3, 7, 262203, 8, 9, 3, 262176, 10,
        1, 7, 262203, 10, 11, 1, 262167, 13,
        6, 4, 196638, 14, 13, 262176, 15, 3,
        14, 262203, 15, 16, 3, 262165, 17, 32,
        1, 262187, 17, 18, 0, 262187, 6, 19,
        1048576000, 262203, 10, 20, 1, 262187, 6, 22,
        1065353216, 262176, 28, 3, 13, 327734, 2, 4,
        0, 3, 131320, 5, 262205, 7, 12, 11,
        196670, 9, 12, 262205, 7, 21, 20, 327761,
        6, 23, 21, 0, 327761, 6, 24, 21,
        1, 327761, 6, 25, 21, 2, 458832, 13,
        26, 23, 24, 25, 22, 327822, 13, 27,
        26, 19, 327745, 28, 29, 16, 18, 196670,
        29, 27, 65789, 65592,
    ];
    words
}

/// The fragment shader module, as the words handed to the GPU.
pub fn fragment_shader_spirv() -> (words: Vec<u32>)
    ensures
        words@ == fragment_shader_module(),
{
    let words: Vec<u32> = vec![
        119734787, 65536, 524295, 19, 0, 131089, 1, 393227,
        1, 1280527431, 1685353262, 808793134, 0, 196622, 0, 1,
        458767, 4, 4, 1852399981, 0, 9, 12, 196624,
        4, 7, 196611, 2, 450, 589828, 1096764487, 1935622738,
        1918988389, 1600484449, 1684105331, 1868526181, 1667590754, 29556, 589828, 1096764487,
        1935622738, 1768186216, 1818191726, 1969712737, 1600481121, 1882206772, 7037793, 262149,
        4, 1852399981, 0, 393221, 9, 1182037359, 1130848626, 1919904879,
        0, 262149, 12, 1866690153, 7499628, 262215, 9, 30,
        0, 262215, 12, 30, 0, 131091, 2, 196641,
        3, 2, 196630, 6, 32, 262167, 7, 6,
        4, 262176, 8, 3, 7, 262203, 8, 9,
        3, 262167, 10, 6, 3, 262176, 11, 1,
        10, 262203, 11, 12, 1, 262187, 6, 14,
        1065353216, 327734, 2, 4, 0, 3, 131320, 5,
        262205, 10, 13, 12, 327761, 6, 15, 13,
        0, 327761, 6, 16, 13, 1, 327761, 6,
        17, 13, 2, 458832, 7, 18, 15, 16,
        17, 14, 196670, 9, 18, 65789, 65592,
    ];
    words
}

} // verus!
