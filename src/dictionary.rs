//! The fixed codebook: 254 short byte strings, each named by its position.
//!
//! Codes `0..=253` stand for codebook entries in an encoded stream; the two
//! remaining byte values introduce literal tokens (see `decode`).
use vstd::prelude::*;

verus! {

/// Number of entries in the codebook.
pub const CODEBOOK_LEN: u8 = 254;

/// Length of the longest codebook entry.
pub const MAX_PATTERN_LEN: usize = 7;

/// The bytes of codebook entry `code`; empty for the two byte values that are
/// not codes.
pub open spec fn pattern(code: u8) -> Seq<u8> {
    match code {
        0 => seq![32u8],
        1 => seq![116u8, 104, 101],
        2 => seq![101u8],
        3 => seq![116u8],
        4 => seq![97u8],
        5 => seq![111u8, 102],
        6 => seq![111u8],
        7 => seq![97u8, 110, 100],
        8 => seq![105u8],
        9 => seq![110u8],
        10 => seq![115u8],
        11 => seq![101u8, 32],
        12 => seq![114u8],
        13 => seq![32u8, 116, 104],
        14 => seq![32u8, 116],
        15 => seq![105u8, 110],
        16 => seq![104u8, 101],
        17 => seq![116u8, 104],
        18 => seq![104u8],
        19 => seq![104u8, 101, 32],
        20 => seq![116u8, 111],
        21 => seq![13u8, 10],
        22 => seq![108u8],
        23 => seq![115u8, 32],
        24 => seq![100u8],
        25 => seq![32u8, 97],
        26 => seq![97u8, 110],
        27 => seq![101u8, 114],
        28 => seq![99u8],
        29 => seq![32u8, 111],
        30 => seq![100u8, 32],
        31 => seq![111u8, 110],
        32 => seq![32u8, 111, 102],
        33 => seq![114u8, 101],
        34 => seq![111u8, 102, 32],
        35 => seq![116u8, 32],
        36 => seq![44u8, 32],
        37 => seq![105u8, 115],
        38 => seq![117u8],
        39 => seq![97u8, 116],
        40 => seq![32u8, 32, 32],
        41 => seq![110u8, 32],
        42 => seq![111u8, 114],
        43 => seq![119u8, 104, 105, 99, 104],
        44 => seq![102u8],
        45 => seq![109u8],
        46 => seq![97u8, 115],
        47 => seq![105u8, 116],
        48 => seq![116u8, 104, 97, 116],
        49 => seq![10u8],
        50 => seq![119u8, 97, 115],
        51 => seq![101u8, 110],
        52 => seq![32u8, 32],
        53 => seq![32u8, 119],
        54 => seq![101u8, 115],
        55 => seq![32u8, 97, 110],
        56 => seq![32u8, 105],
        57 => seq![13u8],
        58 => seq![102u8, 32],
        59 => seq![103u8],
        60 => seq![112u8],
        61 => seq![110u8, 100],
        62 => seq![32u8, 115],
        63 => seq![110u8, 100, 32],
        64 => seq![101u8, 100, 32],
        65 => seq![119u8],
        66 => seq![101u8, 100],
        67 => seq![104u8, 116, 116, 112, 58, 47, 47],
        68 => seq![102u8, 111, 114],
        69 => seq![116u8, 101],
        70 => seq![105u8, 110, 103],
        71 => seq![121u8, 32],
        72 => seq![84u8, 104, 101],
        73 => seq![32u8, 99],
        74 => seq![116u8, 105],
        75 => seq![114u8, 32],
        76 => seq![104u8, 105, 115],
        77 => seq![115u8, 116],
        78 => seq![32u8, 105, 110],
        79 => seq![97u8, 114],
        80 => seq![110u8, 116],
        81 => seq![44u8],
        82 => seq![32u8, 116, 111],
        83 => seq![121u8],
        84 => seq![110u8, 103],
        85 => seq![32u8, 104],
        86 => seq![119u8, 105, 116, 104],
        87 => seq![108u8, 101],
        88 => seq![97u8, 108],
        89 => seq![116u8, 111, 32],
        90 => seq![98u8],
        91 => seq![111u8, 117],
        92 => seq![98u8, 101],
        93 => seq![119u8, 101, 114, 101],
        94 => seq![32u8, 98],
        95 => seq![115u8, 101],
        96 => seq![111u8, 32],
        97 => seq![101u8, 110, 116],
        98 => seq![104u8, 97],
        99 => seq![110u8, 103, 32],
        100 => seq![116u8, 104, 101, 105, 114],
        101 => seq![34u8],
        102 => seq![104u8, 105],
        103 => seq![102u8, 114, 111, 109],
        104 => seq![32u8, 102],
        105 => seq![105u8, 110, 32],
        106 => seq![100u8, 101],
        107 => seq![105u8, 111, 110],
        108 => seq![109u8, 101],
        109 => seq![118u8],
        110 => seq![46u8],
        111 => seq![118u8, 101],
        112 => seq![97u8, 108, 108],
        113 => seq![114u8, 101, 32],
        114 => seq![114u8, 105],
        115 => seq![114u8, 111],
        116 => seq![105u8, 115, 32],
        117 => seq![99u8, 111],
        118 => seq![102u8, 32, 116],
        119 => seq![97u8, 114, 101],
        120 => seq![101u8, 97],
        121 => seq![46u8, 32],
        122 => seq![104u8, 101, 114],
        123 => seq![32u8, 109],
        124 => seq![101u8, 114, 32],
        125 => seq![32u8, 112],
        126 => seq![101u8, 115, 32],
        127 => seq![98u8, 121],
        128 => seq![116u8, 104, 101, 121],
        129 => seq![100u8, 105],
        130 => seq![114u8, 97],
        131 => seq![105u8, 99],
        132 => seq![110u8, 111, 116],
        133 => seq![115u8, 44, 32],
        134 => seq![100u8, 32, 116],
        135 => seq![97u8, 116, 32],
        136 => seq![99u8, 101],
        137 => seq![108u8, 97],
        138 => seq![104u8, 32],
        139 => seq![110u8, 101],
        140 => seq![97u8, 115, 32],
        141 => seq![116u8, 105, 111],
        142 => seq![111u8, 110, 32],
        143 => seq![110u8, 32, 116],
        144 => seq![105u8, 111],
        145 => seq![119u8, 101],
        146 => seq![32u8, 97, 32],
        147 => seq![111u8, 109],
        148 => seq![44u8, 32, 97],
        149 => seq![115u8, 32, 111],
        150 => seq![117u8, 114],
        151 => seq![108u8, 105],
        152 => seq![108u8, 108],
        153 => seq![99u8, 104],
        154 => seq![104u8, 97, 100],
        155 => seq![116u8, 104, 105, 115],
        156 => seq![101u8, 32, 116],
        157 => seq![103u8, 32],
        158 => seq![101u8, 13, 10],
        159 => seq![32u8, 119, 104],
        160 => seq![101u8, 114, 101],
        161 => seq![32u8, 99, 111],
        162 => seq![101u8, 32, 111],
        163 => seq![97u8, 32],
        164 => seq![117u8, 115],
        165 => seq![32u8, 100],
        166 => seq![115u8, 115],
        167 => seq![10u8, 13, 10],
        168 => seq![13u8, 10, 13],
        169 => seq![61u8, 34],
        170 => seq![32u8, 98, 101],
        171 => seq![32u8, 101],
        172 => seq![115u8, 32, 97],
        173 => seq![109u8, 97],
        174 => seq![111u8, 110, 101],
        175 => seq![116u8, 32, 116],
        176 => seq![111u8, 114, 32],
        177 => seq![98u8, 117, 116],
        178 => seq![101u8, 108],
        179 => seq![115u8, 111],
        180 => seq![108u8, 32],
        181 => seq![101u8, 32, 115],
        182 => seq![115u8, 44],
        183 => seq![110u8, 111],
        184 => seq![116u8, 101, 114],
        185 => seq![32u8, 119, 97],
        186 => seq![105u8, 118],
        187 => seq![104u8, 111],
        188 => seq![101u8, 32, 97],
        189 => seq![32u8, 114],
        190 => seq![104u8, 97, 116],
        191 => seq![115u8, 32, 116],
        192 => seq![110u8, 115],
        193 => seq![99u8, 104, 32],
        194 => seq![119u8, 104],
        195 => seq![116u8, 114],
        196 => seq![117u8, 116],
        197 => seq![47u8],
        198 => seq![104u8, 97, 118, 101],
        199 => seq![108u8, 121, 32],
        200 => seq![116u8, 97],
        201 => seq![32u8, 104, 97],
        202 => seq![32u8, 111, 110],
        203 => seq![116u8, 104, 97],
        204 => seq![45u8],
        205 => seq![32u8, 108],
        206 => seq![97u8, 116, 105],
        207 => seq![101u8, 110, 32],
        208 => seq![112u8, 101],
        209 => seq![32u8, 114, 101],
        210 => seq![116u8, 104, 101, 114, 101],
        211 => seq![97u8, 115, 115],
        212 => seq![115u8, 105],
        213 => seq![32u8, 102, 111],
        214 => seq![119u8, 97],
        215 => seq![101u8, 99],
        216 => seq![111u8, 117, 114],
        217 => seq![119u8, 104, 111],
        218 => seq![105u8, 116, 115],
        219 => seq![122u8],
        220 => seq![102u8, 111],
        221 => seq![114u8, 115],
        222 => seq![62u8],
        223 => seq![111u8, 116],
        224 => seq![117u8, 110],
        225 => seq![60u8],
        226 => seq![105u8, 109],
        227 => seq![116u8, 104, 32],
        228 => seq![110u8, 99],
        229 => seq![97u8, 116, 101],
        230 => seq![62u8, 60],
        231 => seq![118u8, 101, 114],
        232 => seq![97u8, 100],
        233 => seq![32u8, 119, 101],
        234 => seq![108u8, 121],
        235 => seq![101u8, 101],
        236 => seq![32u8, 110],
        237 => seq![105u8, 100],
        238 => seq![32u8, 99, 108],
        239 => seq![97u8, 99],
        240 => seq![105u8, 108],
        241 => seq![60u8, 47],
        242 => seq![114u8, 116],
        243 => seq![32u8, 119, 105],
        244 => seq![100u8, 105, 118],
        245 => seq![101u8, 44, 32],
        246 => seq![32u8, 105, 116],
        247 => seq![119u8, 104, 105],
        248 => seq![32u8, 109, 97],
        249 => seq![103u8, 101],
        250 => seq![120u8],
        251 => seq![101u8, 32, 99],
        252 => seq![109u8, 101, 110],
        253 => seq![46u8, 99, 111, 109],
        _ => Seq::empty(),
    }
}

/// The last code below `n` whose entry is exactly `p`.
pub open spec fn last_code_below(p: Seq<u8>, n: int) -> Option<u8>
    decreases n,
{
    if n <= 0 {
        None
    } else if pattern((n - 1) as u8) == p {
        Some((n - 1) as u8)
    } else {
        last_code_below(p, n - 1)
    }
}

/// The code of the entry `p`, if `p` is in the codebook.  Should two entries
/// share their bytes, the later one is chosen.
pub open spec fn index_of(p: Seq<u8>) -> Option<u8> {
    last_code_below(p, CODEBOOK_LEN as int)
}

/// The found code names an entry equal to the searched bytes.
pub proof fn lemma_last_code_below(p: Seq<u8>, n: int)
    requires
        n <= CODEBOOK_LEN,
    ensures
        last_code_below(p, n) matches Some(c) ==> c < n && pattern(c) == p,
    decreases n,
{
    if n > 0 && pattern((n - 1) as u8) != p {
        lemma_last_code_below(p, n - 1);
    }
}

/// The code that `index_of` returns is a real code for exactly those bytes.
pub proof fn lemma_index_of(p: Seq<u8>)
    ensures
        index_of(p) matches Some(c) ==> c < CODEBOOK_LEN && pattern(c) == p,
{
    lemma_last_code_below(p, CODEBOOK_LEN as int);
}

/// The bytes of codebook entry `code`.
pub fn pattern_of(code: u8) -> (r: &'static [u8])
    requires
        code < CODEBOOK_LEN,
    ensures
        r@ == pattern(code),
{
    match code {
        0 => &[32],  // " "
        1 => &[116, 104, 101],  // "the"
        2 => &[101],  // "e"
        3 => &[116],  // "t"
        4 => &[97],  // "a"
        5 => &[111, 102],  // "of"
        6 => &[111],  // "o"
        7 => &[97, 110, 100],  // "and"
        8 => &[105],  // "i"
        9 => &[110],  // "n"
        10 => &[115],  // "s"
        11 => &[101, 32],  // "e "
        12 => &[114],  // "r"
        13 => &[32, 116, 104],  // " th"
        14 => &[32, 116],  // " t"
        15 => &[105, 110],  // "in"
        16 => &[104, 101],  // "he"
        17 => &[116, 104],  // "th"
        18 => &[104],  // "h"
        19 => &[104, 101, 32],  // "he "
        20 => &[116, 111],  // "to"
        21 => &[13, 10],  // "\r\n"
        22 => &[108],  // "l"
        23 => &[115, 32],  // "s "
        24 => &[100],  // "d"
        25 => &[32, 97],  // " a"
        26 => &[97, 110],  // "an"
        27 => &[101, 114],  // "er"
        28 => &[99],  // "c"
        29 => &[32, 111],  // " o"
        30 => &[100, 32],  // "d "
        31 => &[111, 110],  // "on"
        32 => &[32, 111, 102],  // " of"
        33 => &[114, 101],  // "re"
        34 => &[111, 102, 32],  // "of "
        35 => &[116, 32],  // "t "
        36 => &[44, 32],  // ", "
        37 => &[105, 115],  // "is"
        38 => &[117],  // "u"
        39 => &[97, 116],  // "at"
        40 => &[32, 32, 32],  // "   "
        41 => &[110, 32],  // "n "
        42 => &[111, 114],  // "or"
        43 => &[119, 104, 105, 99, 104],  // "which"
        44 => &[102],  // "f"
        45 => &[109],  // "m"
        46 => &[97, 115],  // "as"
        47 => &[105, 116],  // "it"
        48 => &[116, 104, 97, 116],  // "that"
        49 => &[10],  // "\n"
        50 => &[119, 97, 115],  // "was"
        51 => &[101, 110],  // "en"
        52 => &[32, 32],  // "  "
        53 => &[32, 119],  // " w"
        54 => &[101, 115],  // "es"
        55 => &[32, 97, 110],  // " an"
        56 => &[32, 105],  // " i"
        57 => &[13],  // "\r"
        58 => &[102, 32],  // "f "
        59 => &[103],  // "g"
        60 => &[112],  // "p"
        61 => &[110, 100],  // "nd"
        62 => &[32, 115],  // " s"
        63 => &[110, 100, 32],  // "nd "
        64 => &[101, 100, 32],  // "ed "
        65 => &[119],  // "w"
        66 => &[101, 100],  // "ed"
        67 => &[104, 116, 116, 112, 58, 47, 47],  // "http://"
        68 => &[102, 111, 114],  // "for"
        69 => &[116, 101],  // "te"
        70 => &[105, 110, 103],  // "ing"
        71 => &[121, 32],  // "y "
        72 => &[84, 104, 101],  // "The"
        73 => &[32, 99],  // " c"
        74 => &[116, 105],  // "ti"
        75 => &[114, 32],  // "r "
        76 => &[104, 105, 115],  // "his"
        77 => &[115, 116],  // "st"
        78 => &[32, 105, 110],  // " in"
        79 => &[97, 114],  // "ar"
        80 => &[110, 116],  // "nt"
        81 => &[44],  // ","
        82 => &[32, 116, 111],  // " to"
        83 => &[121],  // "y"
        84 => &[110, 103],  // "ng"
        85 => &[32, 104],  // " h"
        86 => &[119, 105, 116, 104],  // "with"
        87 => &[108, 101],  // "le"
        88 => &[97, 108],  // "al"
        89 => &[116, 111, 32],  // "to "
        90 => &[98],  // "b"
        91 => &[111, 117],  // "ou"
        92 => &[98, 101],  // "be"
        93 => &[119, 101, 114, 101],  // "were"
        94 => &[32, 98],  // " b"
        95 => &[115, 101],  // "se"
        96 => &[111, 32],  // "o "
        97 => &[101, 110, 116],  // "ent"
        98 => &[104, 97],  // "ha"
        99 => &[110, 103, 32],  // "ng "
        100 => &[116, 104, 101, 105, 114],  // "their"
        101 => &[34],  // "\""
        102 => &[104, 105],  // "hi"
        103 => &[102, 114, 111, 109],  // "from"
        104 => &[32, 102],  // " f"
        105 => &[105, 110, 32],  // "in "
        106 => &[100, 101],  // "de"
        107 => &[105, 111, 110],  // "ion"
        108 => &[109, 101],  // "me"
        109 => &[118],  // "v"
        110 => &[46],  // "."
        111 => &[118, 101],  // "ve"
        112 => &[97, 108, 108],  // "all"
        113 => &[114, 101, 32],  // "re "
        114 => &[114, 105],  // "ri"
        115 => &[114, 111],  // "ro"
        116 => &[105, 115, 32],  // "is "
        117 => &[99, 111],  // "co"
        118 => &[102, 32, 116],  // "f t"
        119 => &[97, 114, 101],  // "are"
        120 => &[101, 97],  // "ea"
        121 => &[46, 32],  // ". "
        122 => &[104, 101, 114],  // "her"
        123 => &[32, 109],  // " m"
        124 => &[101, 114, 32],  // "er "
        125 => &[32, 112],  // " p"
        126 => &[101, 115, 32],  // "es "
        127 => &[98, 121],  // "by"
        128 => &[116, 104, 101, 121],  // "they"
        129 => &[100, 105],  // "di"
        130 => &[114, 97],  // "ra"
        131 => &[105, 99],  // "ic"
        132 => &[110, 111, 116],  // "not"
        133 => &[115, 44, 32],  // "s, "
        134 => &[100, 32, 116],  // "d t"
        135 => &[97, 116, 32],  // "at "
        136 => &[99, 101],  // "ce"
        137 => &[108, 97],  // "la"
        138 => &[104, 32],  // "h "
        139 => &[110, 101],  // "ne"
        140 => &[97, 115, 32],  // "as "
        141 => &[116, 105, 111],  // "tio"
        142 => &[111, 110, 32],  // "on "
        143 => &[110, 32, 116],  // "n t"
        144 => &[105, 111],  // "io"
        145 => &[119, 101],  // "we"
        146 => &[32, 97, 32],  // " a "
        147 => &[111, 109],  // "om"
        148 => &[44, 32, 97],  // ", a"
        149 => &[115, 32, 111],  // "s o"
        150 => &[117, 114],  // "ur"
        151 => &[108, 105],  // "li"
        152 => &[108, 108],  // "ll"
        153 => &[99, 104],  // "ch"
        154 => &[104, 97, 100],  // "had"
        155 => &[116, 104, 105, 115],  // "this"
        156 => &[101, 32, 116],  // "e t"
        157 => &[103, 32],  // "g "
        158 => &[101, 13, 10],  // "e\r\n"
        159 => &[32, 119, 104],  // " wh"
        160 => &[101, 114, 101],  // "ere"
        161 => &[32, 99, 111],  // " co"
        162 => &[101, 32, 111],  // "e o"
        163 => &[97, 32],  // "a "
        164 => &[117, 115],  // "us"
        165 => &[32, 100],  // " d"
        166 => &[115, 115],  // "ss"
        167 => &[10, 13, 10],  // "\n\r\n"
        168 => &[13, 10, 13],  // "\r\n\r"
        169 => &[61, 34],  // "=\""
        170 => &[32, 98, 101],  // " be"
        171 => &[32, 101],  // " e"
        172 => &[115, 32, 97],  // "s a"
        173 => &[109, 97],  // "ma"
        174 => &[111, 110, 101],  // "one"
        175 => &[116, 32, 116],  // "t t"
        176 => &[111, 114, 32],  // "or "
        177 => &[98, 117, 116],  // "but"
        178 => &[101, 108],  // "el"
        179 => &[115, 111],  // "so"
        180 => &[108, 32],  // "l "
        181 => &[101, 32, 115],  // "e s"
        182 => &[115, 44],  // "s,"
        183 => &[110, 111],  // "no"
        184 => &[116, 101, 114],  // "ter"
        185 => &[32, 119, 97],  // " wa"
        186 => &[105, 118],  // "iv"
        187 => &[104, 111],  // "ho"
        188 => &[101, 32, 97],  // "e a"
        189 => &[32, 114],  // " r"
        190 => &[104, 97, 116],  // "hat"
        191 => &[115, 32, 116],  // "s t"
        192 => &[110, 115],  // "ns"
        193 => &[99, 104, 32],  // "ch "
        194 => &[119, 104],  // "wh"
        195 => &[116, 114],  // "tr"
        196 => &[117, 116],  // "ut"
        197 => &[47],  // "/"
        198 => &[104, 97, 118, 101],  // "have"
        199 => &[108, 121, 32],  // "ly "
        200 => &[116, 97],  // "ta"
        201 => &[32, 104, 97],  // " ha"
        202 => &[32, 111, 110],  // " on"
        203 => &[116, 104, 97],  // "tha"
        204 => &[45],  // "-"
        205 => &[32, 108],  // " l"
        206 => &[97, 116, 105],  // "ati"
        207 => &[101, 110, 32],  // "en "
        208 => &[112, 101],  // "pe"
        209 => &[32, 114, 101],  // " re"
        210 => &[116, 104, 101, 114, 101],  // "there"
        211 => &[97, 115, 115],  // "ass"
        212 => &[115, 105],  // "si"
        213 => &[32, 102, 111],  // " fo"
        214 => &[119, 97],  // "wa"
        215 => &[101, 99],  // "ec"
        216 => &[111, 117, 114],  // "our"
        217 => &[119, 104, 111],  // "who"
        218 => &[105, 116, 115],  // "its"
        219 => &[122],  // "z"
        220 => &[102, 111],  // "fo"
        221 => &[114, 115],  // "rs"
        222 => &[62],  // ">"
        223 => &[111, 116],  // "ot"
        224 => &[117, 110],  // "un"
        225 => &[60],  // "<"
        226 => &[105, 109],  // "im"
        227 => &[116, 104, 32],  // "th "
        228 => &[110, 99],  // "nc"
        229 => &[97, 116, 101],  // "ate"
        230 => &[62, 60],  // "><"
        231 => &[118, 101, 114],  // "ver"
        232 => &[97, 100],  // "ad"
        233 => &[32, 119, 101],  // " we"
        234 => &[108, 121],  // "ly"
        235 => &[101, 101],  // "ee"
        236 => &[32, 110],  // " n"
        237 => &[105, 100],  // "id"
        238 => &[32, 99, 108],  // " cl"
        239 => &[97, 99],  // "ac"
        240 => &[105, 108],  // "il"
        241 => &[60, 47],  // "</"
        242 => &[114, 116],  // "rt"
        243 => &[32, 119, 105],  // " wi"
        244 => &[100, 105, 118],  // "div"
        245 => &[101, 44, 32],  // "e, "
        246 => &[32, 105, 116],  // " it"
        247 => &[119, 104, 105],  // "whi"
        248 => &[32, 109, 97],  // " ma"
        249 => &[103, 101],  // "ge"
        250 => &[120],  // "x"
        251 => &[101, 32, 99],  // "e c"
        252 => &[109, 101, 110],  // "men"
        _ => &[46, 99, 111, 109],  // ".com"
    }
}

/// Whether two byte strings are equal.
fn bytes_equal(a: &[u8], b: &[u8]) -> (r: bool)
    ensures
        r == (a@ == b@),
{
    if a.len() != b.len() {
        return false;
    }
    let mut i: usize = 0;
    while i < a.len()
        invariant
            a@.len() == b@.len(),
            i <= a@.len(),
            a@.subrange(0, i as int) == b@.subrange(0, i as int),
        decreases a@.len() - i,
    {
        if a[i] != b[i] {
            assert(a@.subrange(0, i + 1)[i as int] != b@.subrange(0, i + 1)[i as int]);
            return false;
        }
        assert(a@.subrange(0, i + 1) =~= a@.subrange(0, i as int).push(a@[i as int]));
        assert(b@.subrange(0, i + 1) =~= b@.subrange(0, i as int).push(b@[i as int]));
        i = i + 1;
    }
    assert(a@ =~= a@.subrange(0, a@.len() as int));
    assert(b@ =~= b@.subrange(0, b@.len() as int));
    true
}

/// Looks `p` up in the codebook, searching from the last entry backwards.
pub fn lookup(p: &[u8]) -> (r: Option<u8>)
    ensures
        r == index_of(p@),
{
    let mut n: u8 = CODEBOOK_LEN;
    while n > 0
        invariant
            n <= CODEBOOK_LEN,
            index_of(p@) == last_code_below(p@, n as int),
        decreases n,
    {
        let code = n - 1;
        if bytes_equal(pattern_of(code), p) {
            return Some(code);
        }
        n = code;
    }
    None
}

} // verus!
