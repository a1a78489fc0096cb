use vstd::prelude::*;

verus! {

/// The deepest tree this library builds.
pub const MAX_LEVELS: usize = 20;

/// The root of an entirely empty subtree of height `i`, for `0 <= i <= MAX_LEVELS`.
///
/// Height 0 is the placeholder leaf; each further entry is the Poseidon hash of two
/// copies of the entry below it. The values are fixed so that roots stay comparable
/// with those of every other party that uses the same table.
pub open spec fn zero_value(i: int) -> [u8; 32] {
    if i == 0 {
        [
            0x28, 0x94, 0x0d, 0xee, 0xac, 0xd1, 0xca, 0x28,
            0x31, 0x33, 0x68, 0x74, 0xe8, 0x74, 0x29, 0xdb,
            0x0e, 0x72, 0x8a, 0x67, 0xa4, 0x72, 0xb7, 0xac,
            0x81, 0x95, 0xc4, 0x3c, 0x2f, 0xb1, 0x30, 0x09,
        ]
    } else if i == 1 {
        [
            0x13, 0x8b, 0xfd, 0xb7, 0x91, 0xd8, 0xba, 0xd9,
            0x8a, 0x50, 0xc8, 0x2e, 0xa1, 0xef, 0x62, 0x4f,
            0xeb, 0x03, 0xed, 0x9b, 0x7b, 0xbd, 0xb3, 0x48,
            0x55, 0x1a, 0x6b, 0x34, 0x7f, 0xfd, 0x56, 0x1c,
        ]
    } else if i == 2 {
        [
            0x00, 0x5e, 0xf3, 0xbb, 0xa3, 0x6e, 0x2d, 0x71,
            0x45, 0x75, 0xef, 0x75, 0xc6, 0xec, 0x27, 0xc6,
            0x0e, 0x05, 0x93, 0xfb, 0x7b, 0xd4, 0x01, 0x2a,
            0x33, 0x0b, 0xc0, 0x65, 0xfb, 0x79, 0x08, 0x37,
        ]
    } else if i == 3 {
        [
            0x10, 0xc7, 0x03, 0x6d, 0x8a, 0x63, 0xd1, 0x40,
            0xd7, 0x7c, 0x6a, 0xc1, 0x21, 0xc2, 0xef, 0x50,
            0x2c, 0xa8, 0x37, 0x03, 0x91, 0x3d, 0x34, 0x97,
            0x48, 0x17, 0x54, 0x31, 0x1c, 0xf8, 0x12, 0xa1,
        ]
    } else if i == 4 {
        [
            0x1e, 0x54, 0xdf, 0x31, 0x58, 0xcf, 0x89, 0x80,
            0x2f, 0x13, 0xf7, 0x22, 0x65, 0xf2, 0x6c, 0x3f,
            0x28, 0x13, 0x91, 0x46, 0x57, 0xcc, 0xe8, 0xfe,
            0x1c, 0x68, 0xc8, 0x1c, 0x6f, 0x84, 0xb5, 0xe3,
        ]
    } else if i == 5 {
        [
            0x07, 0xf8, 0x79, 0x07, 0xf4, 0x8e, 0x61, 0x7a,
            0x18, 0x4d, 0x93, 0x59, 0x64, 0x50, 0xb3, 0xa6,
            0x8a, 0x30, 0xc0, 0xdf, 0xdf, 0x93, 0x16, 0x4a,
            0x0a, 0xf9, 0x63, 0xdd, 0xcc, 0xc0, 0x4c, 0xc7,
        ]
    } else if i == 6 {
        [
            0x1b, 0xca, 0xbd, 0x63, 0x5e, 0x6f, 0x84, 0x5b,
            0x50, 0x39, 0xcb, 0xf8, 0x27, 0xb5, 0x28, 0x12,
            0x1e, 0xc3, 0x4a, 0x2a, 0x3f, 0x68, 0x0f, 0x27,
            0xf8, 0x84, 0x56, 0xc4, 0x76, 0x62, 0xec, 0x32,
        ]
    } else if i == 7 {
        [
            0x03, 0x2d, 0x93, 0x0e, 0x15, 0x6c, 0xce, 0x79,
            0x7f, 0xcd, 0x3f, 0x4a, 0x11, 0xdc, 0x41, 0x70,
            0x31, 0x5f, 0x8f, 0x83, 0x0c, 0xa6, 0xb0, 0xf3,
            0xbb, 0x71, 0x1e, 0x53, 0x37, 0xd6, 0x77, 0x3d,
        ]
    } else if i == 8 {
        [
            0x17, 0x0a, 0xbe, 0x49, 0x47, 0xc1, 0x19, 0x5a,
            0x40, 0xa4, 0x88, 0x11, 0xe6, 0xb3, 0x62, 0xa0,
            0xa9, 0xc8, 0x68, 0x57, 0x33, 0xc1, 0x7f, 0x61,
            0x50, 0xc1, 0x96, 0xb9, 0x39, 0xfc, 0x21, 0xf8,
        ]
    } else if i == 9 {
        [
            0x03, 0xd9, 0xe6, 0x48, 0xd6, 0x74, 0x27, 0xd0,
            0xa6, 0xe0, 0xa3, 0x0a, 0xad, 0x5d, 0x18, 0xaf,
            0x05, 0xb9, 0xe0, 0x4b, 0x41, 0xb4, 0x98, 0x5f,
            0xd4, 0x06, 0x2d, 0xe2, 0x71, 0x1c, 0xbe, 0xc1,
        ]
    } else if i == 10 {
        [
            0x04, 0xa4, 0xfe, 0x12, 0x21, 0xc0, 0xd2, 0x1b,
            0x27, 0xb4, 0x9a, 0x23, 0xb7, 0x53, 0x47, 0xfe,
            0xc6, 0x90, 0x3b, 0xba, 0xd2, 0xf6, 0x12, 0x99,
            0xb9, 0x36, 0xbf, 0xb7, 0xb7, 0x83, 0xfc, 0xd7,
        ]
    } else if i == 11 {
        [
            0x14, 0x32, 0xaa, 0x33, 0x5f, 0xcc, 0xae, 0xed,
            0xed, 0x95, 0x05, 0xa5, 0xa1, 0x42, 0xe8, 0x56,
            0x8a, 0xf6, 0x2c, 0xcc, 0x90, 0x81, 0x14, 0xbf,
            0xdc, 0xbe, 0x95, 0x6e, 0x11, 0x72, 0xad, 0x98,
        ]
    } else if i == 12 {
        [
            0x18, 0x91, 0x90, 0x59, 0xfd, 0x2a, 0x3d, 0x7b,
            0xa6, 0xc4, 0x04, 0x9f, 0x42, 0xb7, 0x7b, 0x0e,
            0xcc, 0x6a, 0x23, 0x01, 0xe6, 0x65, 0x36, 0x38,
            0x7f, 0x11, 0xaa, 0x52, 0x2b, 0x3e, 0xd2, 0x7b,
        ]
    } else if i == 13 {
        [
            0x06, 0x96, 0x2f, 0x22, 0x9c, 0x6f, 0x6e, 0x30,
            0x7a, 0x60, 0x22, 0x49, 0x33, 0xcb, 0x0d, 0x9c,
            0x9b, 0x61, 0xcf, 0x44, 0x2e, 0xd5, 0xb0, 0x36,
            0xe9, 0xcf, 0x36, 0x70, 0xa5, 0xaf, 0xf8, 0xd2,
        ]
    } else if i == 14 {
        [
            0x01, 0x82, 0x1e, 0x95, 0xe5, 0x34, 0x93, 0x44,
            0x8e, 0x2d, 0x59, 0x9c, 0xb0, 0x45, 0xcd, 0x8e,
            0x8d, 0x21, 0xf3, 0xd2, 0xd7, 0xe8, 0xac, 0xf5,
            0xc9, 0x09, 0x68, 0x1e, 0xe2, 0x0a, 0x69, 0x26,
        ]
    } else if i == 15 {
        [
            0x0e, 0xc5, 0xb2, 0x9a, 0xd4, 0x60, 0x9e, 0xfd,
            0x69, 0xbd, 0x92, 0x30, 0xc8, 0x9f, 0x82, 0xf3,
            0xfc, 0x15, 0x03, 0xf3, 0x8c, 0x21, 0x15, 0x07,
            0x3e, 0x82, 0x22, 0x61, 0x91, 0x92, 0x62, 0x96,
        ]
    } else if i == 16 {
        [
            0x16, 0x4c, 0x52, 0x2e, 0xc8, 0xd8, 0xd0, 0x64,
            0xe9, 0xac, 0x53, 0x5c, 0x6a, 0x1b, 0x34, 0xfc,
            0x41, 0xa5, 0x05, 0xd8, 0x70, 0xeb, 0xc0, 0xad,
            0x55, 0x16, 0x72, 0x17, 0x1b, 0x75, 0xf3, 0x4c,
        ]
    } else if i == 17 {
        [
            0x25, 0x2a, 0x2a, 0xcf, 0xa2, 0x2c, 0xa0, 0x9d,
            0x7f, 0x96, 0x5d, 0x01, 0x5b, 0x01, 0xcf, 0x3c,
            0xd5, 0x9f, 0xf8, 0x9d, 0x5b, 0x4f, 0x22, 0x95,
            0x64, 0xc2, 0x28, 0xf2, 0x50, 0x20, 0xed, 0xf1,
        ]
    } else if i == 18 {
        [
            0x2f, 0x72, 0x9a, 0xb9, 0x99, 0x4d, 0x06, 0xf1,
            0xe6, 0xc0, 0x77, 0xc5, 0xea, 0xdb, 0xc4, 0x51,
            0xe7, 0x21, 0xd0, 0x29, 0x15, 0x9a, 0x30, 0xe4,
            0x7e, 0x32, 0xb1, 0x5c, 0xc6, 0xe2, 0x8a, 0xb7,
        ]
    } else if i == 19 {
        [
            0x19, 0xbf, 0x0a, 0x91, 0xf2, 0x85, 0x2d, 0x3a,
            0x5b, 0xd3, 0x56, 0x5d, 0x9f, 0x77, 0xe0, 0x4f,
            0xb6, 0xde, 0x7b, 0xc3, 0x18, 0x75, 0x3f, 0xa5,
            0x28, 0x17, 0x00, 0xd7, 0x86, 0xe8, 0xab, 0xd1,
        ]
    } else {
        [
            0x28, 0xc6, 0xd1, 0x55, 0xc4, 0xef, 0x4f, 0x87,
            0x09, 0x53, 0x23, 0xe8, 0x83, 0x2e, 0xc0, 0x54,
            0xfa, 0x7d, 0xab, 0x72, 0xa6, 0xfd, 0x22, 0x95,
            0x6b, 0x39, 0xe3, 0xdb, 0x18, 0x40, 0x29, 0x6f,
        ]
    }
}

/// Looks up the empty-subtree value of height `i`.
pub fn zeros(i: u32) -> (r: [u8; 32])
    requires
        i <= MAX_LEVELS,
    ensures
        r == zero_value(i as int),
{
    match i {
        0 => [
            0x28, 0x94, 0x0d, 0xee, 0xac, 0xd1, 0xca, 0x28,
            0x31, 0x33, 0x68, 0x74, 0xe8, 0x74, 0x29, 0xdb,
            0x0e, 0x72, 0x8a, 0x67, 0xa4, 0x72, 0xb7, 0xac,
            0x81, 0x95, 0xc4, 0x3c, 0x2f, 0xb1, 0x30, 0x09,
        ],
        1 => [
            0x13, 0x8b, 0xfd, 0xb7, 0x91, 0xd8, 0xba, 0xd9,
            0x8a, 0x50, 0xc8, 0x2e, 0xa1, 0xef, 0x62, 0x4f,
            0xeb, 0x03, 0xed, 0x9b, 0x7b, 0xbd, 0xb3, 0x48,
            0x55, 0x1a, 0x6b, 0x34, 0x7f, 0xfd, 0x56, 0x1c,
        ],
        2 => [
            0x00, 0x5e, 0xf3, 0xbb, 0xa3, 0x6e, 0x2d, 0x71,
            0x45, 0x75, 0xef, 0x75, 0xc6, 0xec, 0x27, 0xc6,
            0x0e, 0x05, 0x93, 0xfb, 0x7b, 0xd4, 0x01, 0x2a,
            0x33, 0x0b, 0xc0, 0x65, 0xfb, 0x79, 0x08, 0x37,
        ],
        3 => [
            0x10, 0xc7, 0x03, 0x6d, 0x8a, 0x63, 0xd1, 0x40,
            0xd7, 0x7c, 0x6a, 0xc1, 0x21, 0xc2, 0xef, 0x50,
            0x2c, 0xa8, 0x37, 0x03, 0x91, 0x3d, 0x34, 0x97,
            0x48, 0x17, 0x54, 0x31, 0x1c, 0xf8, 0x12, 0xa1,
        ],
        4 => [
            0x1e, 0x54, 0xdf, 0x31, 0x58, 0xcf, 0x89, 0x80,
            0x2f, 0x13, 0xf7, 0x22, 0x65, 0xf2, 0x6c, 0x3f,
            0x28, 0x13, 0x91, 0x46, 0x57, 0xcc, 0xe8, 0xfe,
            0x1c, 0x68, 0xc8, 0x1c, 0x6f, 0x84, 0xb5, 0xe3,
        ],
        5 => [
            0x07, 0xf8, 0x79, 0x07, 0xf4, 0x8e, 0x61, 0x7a,
            0x18, 0x4d, 0x93, 0x59, 0x64, 0x50, 0xb3, 0xa6,
            0x8a, 0x30, 0xc0, 0xdf, 0xdf, 0x93, 0x16, 0x4a,
            0x0a, 0xf9, 0x63, 0xdd, 0xcc, 0xc0, 0x4c, 0xc7,
        ],
        6 => [
            0x1b, 0xca, 0xbd, 0x63, 0x5e, 0x6f, 0x84, 0x5b,
            0x50, 0x39, 0xcb, 0xf8, 0x27, 0xb5, 0x28, 0x12,
            0x1e, 0xc3, 0x4a, 0x2a, 0x3f, 0x68, 0x0f, 0x27,
            0xf8, 0x84, 0x56, 0xc4, 0x76, 0x62, 0xec, 0x32,
        ],
        7 => [
            0x03, 0x2d, 0x93, 0x0e, 0x15, 0x6c, 0xce, 0x79,
            0x7f, 0xcd, 0x3f, 0x4a, 0x11, 0xdc, 0x41, 0x70,
            0x31, 0x5f, 0x8f, 0x83, 0x0c, 0xa6, 0xb0, 0xf3,
            0xbb, 0x71, 0x1e, 0x53, 0x37, 0xd6, 0x77, 0x3d,
        ],
        8 => [
            0x17, 0x0a, 0xbe, 0x49, 0x47, 0xc1, 0x19, 0x5a,
            0x40, 0xa4, 0x88, 0x11, 0xe6, 0xb3, 0x62, 0xa0,
            0xa9, 0xc8, 0x68, 0x57, 0x33, 0xc1, 0x7f, 0x61,
            0x50, 0xc1, 0x96, 0xb9, 0x39, 0xfc, 0x21, 0xf8,
        ],
        9 => [
            0x03, 0xd9, 0xe6, 0x48, 0xd6, 0x74, 0x27, 0xd0,
            0xa6, 0xe0, 0xa3, 0x0a, 0xad, 0x5d, 0x18, 0xaf,
            0x05, 0xb9, 0xe0, 0x4b, 0x41, 0xb4, 0x98, 0x5f,
            0xd4, 0x06, 0x2d, 0xe2, 0x71, 0x1c, 0xbe, 0xc1,
        ],
        10 => [
            0x04, 0xa4, 0xfe, 0x12, 0x21, 0xc0, 0xd2, 0x1b,
            0x27, 0xb4, 0x9a, 0x23, 0xb7, 0x53, 0x47, 0xfe,
            0xc6, 0x90, 0x3b, 0xba, 0xd2, 0xf6, 0x12, 0x99,
            0xb9, 0x36, 0xbf, 0xb7, 0xb7, 0x83, 0xfc, 0xd7,
        ],
        11 => [
            0x14, 0x32, 0xaa, 0x33, 0x5f, 0xcc, 0xae, 0xed,
            0xed, 0x95, 0x05, 0xa5, 0xa1, 0x42, 0xe8, 0x56,
            0x8a, 0xf6, 0x2c, 0xcc, 0x90, 0x81, 0x14, 0xbf,
            0xdc, 0xbe, 0x95, 0x6e, 0x11, 0x72, 0xad, 0x98,
        ],
        12 => [
            0x18, 0x91, 0x90, 0x59, 0xfd, 0x2a, 0x3d, 0x7b,
            0xa6, 0xc4, 0x04, 0x9f, 0x42, 0xb7, 0x7b, 0x0e,
            0xcc, 0x6a, 0x23, 0x01, 0xe6, 0x65, 0x36, 0x38,
            0x7f, 0x11, 0xaa, 0x52, 0x2b, 0x3e, 0xd2, 0x7b,
        ],
        13 => [
            0x06, 0x96, 0x2f, 0x22, 0x9c, 0x6f, 0x6e, 0x30,
            0x7a, 0x60, 0x22, 0x49, 0x33, 0xcb, 0x0d, 0x9c,
            0x9b, 0x61, 0xcf, 0x44, 0x2e, 0xd5, 0xb0, 0x36,
            0xe9, 0xcf, 0x36, 0x70, 0xa5, 0xaf, 0xf8, 0xd2,
        ],
        14 => [
            0x01, 0x82, 0x1e, 0x95, 0xe5, 0x34, 0x93, 0x44,
            0x8e, 0x2d, 0x59, 0x9c, 0xb0, 0x45, 0xcd, 0x8e,
            0x8d, 0x21, 0xf3, 0xd2, 0xd7, 0xe8, 0xac, 0xf5,
            0xc9, 0x09, 0x68, 0x1e, 0xe2, 0x0a, 0x69, 0x26,
        ],
        15 => [
            0x0e, 0xc5, 0xb2, 0x9a, 0xd4, 0x60, 0x9e, 0xfd,
            0x69, 0xbd, 0x92, 0x30, 0xc8, 0x9f, 0x82, 0xf3,
            0xfc, 0x15, 0x03, 0xf3, 0x8c, 0x21, 0x15, 0x07,
            0x3e, 0x82, 0x22, 0x61, 0x91, 0x92, 0x62, 0x96,
        ],
        16 => [
            0x16, 0x4c, 0x52, 0x2e, 0xc8, 0xd8, 0xd0, 0x64,
            0xe9, 0xac, 0x53, 0x5c, 0x6a, 0x1b, 0x34, 0xfc,
            0x41, 0xa5, 0x05, 0xd8, 0x70, 0xeb, 0xc0, 0xad,
            0x55, 0x16, 0x72, 0x17, 0x1b, 0x75, 0xf3, 0x4c,
        ],
        17 => [
            0x25, 0x2a, 0x2a, 0xcf, 0xa2, 0x2c, 0xa0, 0x9d,
            0x7f, 0x96, 0x5d, 0x01, 0x5b, 0x01, 0xcf, 0x3c,
            0xd5, 0x9f, 0xf8, 0x9d, 0x5b, 0x4f, 0x22, 0x95,
            0x64, 0xc2, 0x28, 0xf2, 0x50, 0x20, 0xed, 0xf1,
        ],
        18 => [
            0x2f, 0x72, 0x9a, 0xb9, 0x99, 0x4d, 0x06, 0xf1,
            0xe6, 0xc0, 0x77, 0xc5, 0xea, 0xdb, 0xc4, 0x51,
            0xe7, 0x21, 0xd0, 0x29, 0x15, 0x9a, 0x30, 0xe4,
            0x7e, 0x32, 0xb1, 0x5c, 0xc6, 0xe2, 0x8a, 0xb7,
        ],
        19 => [
            0x19, 0xbf, 0x0a, 0x91, 0xf2, 0x85, 0x2d, 0x3a,
            0x5b, 0xd3, 0x56, 0x5d, 0x9f, 0x77, 0xe0, 0x4f,
            0xb6, 0xde, 0x7b, 0xc3, 0x18, 0x75, 0x3f, 0xa5,
            0x28, 0x17, 0x00, 0xd7, 0x86, 0xe8, 0xab, 0xd1,
        ],
        _ => [
            0x28, 0xc6, 0xd1, 0x55, 0xc4, 0xef, 0x4f, 0x87,
            0x09, 0x53, 0x23, 0xe8, 0x83, 0x2e, 0xc0, 0x54,
            0xfa, 0x7d, 0xab, 0x72, 0xa6, 0xfd, 0x22, 0x95,
            0x6b, 0x39, 0xe3, 0xdb, 0x18, 0x40, 0x29, 0x6f,
        ],
    }
}

} // verus!
