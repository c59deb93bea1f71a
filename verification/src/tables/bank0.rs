//! Class data: the pages 0 to 15, each with the class numbers of one block of
//! 256 code points.

use vstd::prelude::*;

verus! {

const PAGE_000: [u8; 256] = [
    3, 3, 3, 3, 3, 3, 3, 3, 3, 12, 2, 0, 0, 1, 3, 3, 3, 3, 3, 3, 3, 3, 3, 3, 3, 3, 3, 3, 3, 3, 3, 3,
    9, 18, 22, 29, 26, 25, 29, 22, 21, 17, 29, 26, 23, 14, 23, 27, 24, 24, 24, 24, 24, 24, 24, 24, 24, 24, 23, 23, 29, 29, 29, 18,
    29, 29, 29, 29, 29, 29, 29, 29, 29, 29, 29, 29, 29, 29, 29, 29, 29, 29, 29, 29, 29, 29, 29, 29, 29, 29, 29, 21, 26, 17, 29, 29,
    29, 29, 29, 29, 29, 29, 29, 29, 29, 29, 29, 29, 29, 29, 29, 29, 29, 29, 29, 29, 29, 29, 29, 29, 29, 29, 29, 21, 12, 16, 29, 3,
    3, 3, 3, 3, 3, 4, 3, 3, 3, 3, 3, 3, 3, 3, 3, 3, 3, 3, 3, 3, 3, 3, 3, 3, 3, 3, 3, 3, 3, 3, 3, 3,
    8, 21, 25, 26, 26, 26, 29, 28, 28, 29, 28, 22, 29, 12, 29, 29, 25, 26, 28, 28, 13, 29, 28, 28, 28, 28, 28, 22, 28, 28, 28, 21,
    29, 29, 29, 29, 29, 29, 29, 29, 29, 29, 29, 29, 29, 29, 29, 29, 29, 29, 29, 29, 29, 29, 29, 28, 29, 29, 29, 29, 29, 29, 29, 29,
    29, 29, 29, 29, 29, 29, 29, 29, 29, 29, 29, 29, 29, 29, 29, 29, 29, 29, 29, 29, 29, 29, 29, 28, 29, 29, 29, 29, 29, 29, 29, 29,
];

const PAGE_001: [u8; 256] = [
    29, 29, 29, 29, 29, 29, 29, 29, 29, 29, 29, 29, 29, 29, 29, 29, 29, 29, 29, 29, 29, 29, 29, 29, 29, 29, 29, 29, 29, 29, 29, 29,
    29, 29, 29, 29, 29, 29, 29, 29, 29, 29, 29, 29, 29, 29, 29, 29, 29, 29, 29, 29, 29, 29, 29, 29, 29, 29, 29, 29, 29, 29, 29, 29,
    29, 29, 29, 29, 29, 29, 29, 29, 29, 29, 29, 29, 29, 29, 29, 29, 29, 29, 29, 29, 29, 29, 29, 29, 29, 29, 29, 29, 29, 29, 29, 29,
    29, 29, 29, 29, 29, 29, 29, 29, 29, 29, 29, 29, 29, 29, 29, 29, 29, 29, 29, 29, 29, 29, 29, 29, 29, 29, 29, 29, 29, 29, 29, 29,
    29, 29, 29, 29, 29, 29, 29, 29, 29, 29, 29, 29, 29, 29, 29, 29, 29, 29, 29, 29, 29, 29, 29, 29, 29, 29, 29, 29, 29, 29, 29, 29,
    29, 29, 29, 29, 29, 29, 29, 29, 29, 29, 29, 29, 29, 29, 29, 29, 29, 29, 29, 29, 29, 29, 29, 29, 29, 29, 29, 29, 29, 29, 29, 29,
    29, 29, 29, 29, 29, 29, 29, 28, 13, 28, 28, 28, 13, 28, 29, 29, 28, 29, 29, 29, 29, 29, 29, 29, 28, 28, 28, 28, 29, 28, 29, 13,
    29, 29, 29, 29, 29, 29, 29, 29, 29, 29, 29, 29, 29, 29, 29, 29, 29, 29, 29, 29, 29, 29, 29, 29, 29, 29, 29, 29, 29, 29, 29, 29,
];

const PAGE_002: [u8; 256] = [
    3, 3, 3, 3, 3, 3, 3, 3, 3, 3, 3, 3, 3, 3, 3, 3, 3, 3, 3, 3, 3, 3, 3, 3, 3, 3, 3, 3, 3, 3, 3, 3,
    3, 3, 3, 3, 3, 3, 3, 3, 3, 3, 3, 3, 3, 3, 3, 3, 3, 3, 3, 3, 3, 3, 3, 3, 3, 3, 3, 3, 3, 3, 3, 3,
    3, 3, 3, 3, 3, 3, 3, 3, 3, 3, 3, 3, 3, 3, 3, 8, 3, 3, 3, 3, 3, 3, 3, 3, 3, 3, 3, 3, 8, 8, 8, 8,
    8, 8, 8, 3, 3, 3, 3, 3, 3, 3, 3, 3, 3, 3, 3, 3, 29, 29, 29, 29, 29, 29, 29, 29, 42, 42, 29, 29, 29, 29, 23, 29,
    42, 42, 42, 42, 29, 29, 29, 29, 29, 29, 29, 42, 29, 42, 29, 29, 29, 29, 29, 29, 29, 29, 29, 29, 29, 29, 29, 29, 29, 29, 29, 29,
    29, 29, 42, 29, 29, 29, 29, 29, 29, 29, 29, 29, 29, 29, 29, 29, 29, 29, 29, 29, 29, 29, 29, 29, 29, 29, 29, 29, 29, 29, 29, 29,
    29, 29, 29, 29, 29, 29, 29, 29, 29, 29, 29, 29, 29, 29, 29, 29, 29, 29, 29, 29, 29, 29, 29, 29, 29, 29, 29, 29, 29, 29, 29, 29,
    29, 29, 29, 29, 29, 29, 29, 29, 29, 29, 29, 29, 29, 29, 29, 29, 29, 29, 29, 29, 29, 29, 29, 29, 29, 29, 29, 29, 29, 29, 29, 29,
];

const PAGE_003: [u8; 256] = [
    29, 29, 29, 29, 29, 29, 29, 29, 29, 29, 29, 29, 29, 29, 29, 29, 29, 29, 29, 29, 29, 29, 29, 29, 29, 29, 29, 29, 29, 29, 29, 29,
    29, 29, 29, 29, 29, 29, 29, 29, 29, 29, 29, 29, 29, 29, 29, 29, 29, 29, 29, 29, 29, 29, 29, 29, 29, 29, 29, 29, 29, 29, 29, 29,
    29, 29, 29, 29, 29, 29, 29, 29, 29, 29, 29, 29, 29, 29, 29, 29, 29, 29, 29, 29, 29, 29, 29, 29, 29, 29, 29, 29, 29, 29, 29, 29,
    29, 29, 29, 29, 29, 29, 29, 29, 29, 29, 29, 29, 29, 29, 29, 29, 29, 29, 29, 29, 29, 29, 29, 29, 29, 29, 29, 29, 29, 29, 29, 29,
    29, 29, 29, 3, 3, 3, 3, 3, 3, 3, 29, 29, 29, 29, 29, 29, 29, 29, 29, 29, 29, 29, 29, 29, 29, 29, 29, 29, 29, 29, 29, 29,
    29, 29, 29, 29, 29, 29, 29, 29, 29, 29, 29, 29, 29, 29, 29, 29, 29, 29, 29, 29, 29, 29, 29, 29, 29, 29, 29, 29, 29, 29, 29, 29,
    29, 29, 29, 29, 29, 29, 29, 29, 29, 29, 29, 29, 29, 29, 29, 29, 29, 29, 29, 29, 29, 29, 29, 29, 29, 29, 29, 29, 29, 29, 29, 29,
    29, 29, 29, 29, 29, 29, 29, 29, 29, 29, 29, 29, 29, 29, 29, 29, 29, 29, 29, 29, 29, 29, 29, 29, 29, 29, 29, 29, 29, 29, 29, 29,
];

const PAGE_004: [u8; 256] = [
    29, 29, 29, 29, 29, 29, 29, 29, 29, 29, 29, 29, 29, 29, 29, 29, 29, 29, 29, 29, 29, 29, 29, 29, 29, 29, 29, 29, 29, 29, 29, 29,
    29, 29, 29, 29, 29, 29, 29, 29, 29, 29, 29, 29, 29, 29, 29, 29, 42, 29, 29, 29, 29, 29, 29, 29, 29, 29, 29, 29, 29, 29, 29, 29,
    29, 29, 29, 29, 29, 29, 29, 29, 29, 29, 29, 29, 29, 29, 29, 29, 29, 29, 29, 29, 29, 29, 29, 42, 42, 29, 29, 29, 29, 29, 29, 29,
    29, 29, 29, 29, 29, 29, 29, 29, 29, 29, 29, 29, 29, 29, 29, 29, 29, 29, 29, 29, 29, 29, 29, 29, 29, 29, 29, 29, 29, 29, 29, 29,
    29, 29, 29, 29, 29, 29, 29, 29, 29, 23, 12, 42, 42, 29, 29, 26, 42, 3, 3, 3, 3, 3, 3, 3, 3, 3, 3, 3, 3, 3, 3, 3,
    3, 3, 3, 3, 3, 3, 3, 3, 3, 3, 3, 3, 3, 3, 3, 3, 3, 3, 3, 3, 3, 3, 3, 3, 3, 3, 3, 3, 3, 3, 12, 3,
    29, 3, 3, 29, 3, 3, 18, 3, 42, 42, 42, 42, 42, 42, 42, 42, 35, 35, 35, 35, 35, 35, 35, 35, 35, 35, 35, 35, 35, 35, 35, 35,
    35, 35, 35, 35, 35, 35, 35, 35, 35, 35, 35, 42, 42, 42, 42, 35, 35, 35, 35, 29, 29, 42, 42, 42, 42, 42, 42, 42, 42, 42, 42, 42,
];

const PAGE_005: [u8; 256] = [
    29, 29, 29, 29, 29, 29, 29, 29, 29, 25, 25, 25, 23, 23, 29, 29, 3, 3, 3, 3, 3, 3, 3, 3, 3, 3, 3, 18, 3, 18, 18, 18,
    29, 29, 29, 29, 29, 29, 29, 29, 29, 29, 29, 29, 29, 29, 29, 29, 29, 29, 29, 29, 29, 29, 29, 29, 29, 29, 29, 29, 29, 29, 29, 29,
    29, 29, 29, 29, 29, 29, 29, 29, 29, 29, 29, 3, 3, 3, 3, 3, 3, 3, 3, 3, 3, 3, 3, 3, 3, 3, 3, 3, 3, 3, 3, 3,
    24, 24, 24, 24, 24, 24, 24, 24, 24, 24, 25, 24, 24, 29, 29, 29, 3, 29, 29, 29, 29, 29, 29, 29, 29, 29, 29, 29, 29, 29, 29, 29,
    29, 29, 29, 29, 29, 29, 29, 29, 29, 29, 29, 29, 29, 29, 29, 29, 29, 29, 29, 29, 29, 29, 29, 29, 29, 29, 29, 29, 29, 29, 29, 29,
    29, 29, 29, 29, 29, 29, 29, 29, 29, 29, 29, 29, 29, 29, 29, 29, 29, 29, 29, 29, 29, 29, 29, 29, 29, 29, 29, 29, 29, 29, 29, 29,
    29, 29, 29, 29, 29, 29, 29, 29, 29, 29, 29, 29, 29, 29, 29, 29, 29, 29, 29, 29, 18, 29, 3, 3, 3, 3, 3, 3, 3, 29, 29, 3,
    3, 3, 3, 3, 3, 29, 29, 3, 3, 29, 3, 3, 3, 3, 29, 29, 24, 24, 24, 24, 24, 24, 24, 24, 24, 24, 29, 29, 29, 29, 29, 29,
];

const PAGE_006: [u8; 256] = [
    29, 29, 29, 29, 29, 29, 29, 29, 29, 29, 29, 29, 29, 29, 42, 29, 29, 3, 29, 29, 29, 29, 29, 29, 29, 29, 29, 29, 29, 29, 29, 29,
    29, 29, 29, 29, 29, 29, 29, 29, 29, 29, 29, 29, 29, 29, 29, 29, 3, 3, 3, 3, 3, 3, 3, 3, 3, 3, 3, 3, 3, 3, 3, 3,
    3, 3, 3, 3, 3, 3, 3, 3, 3, 3, 3, 42, 42, 29, 29, 29, 29, 29, 29, 29, 29, 29, 29, 29, 29, 29, 29, 29, 29, 29, 29, 29,
    29, 29, 29, 29, 29, 29, 29, 29, 29, 29, 29, 29, 29, 29, 29, 29, 29, 29, 29, 29, 29, 29, 29, 29, 29, 29, 29, 29, 29, 29, 29, 29,
    29, 29, 29, 29, 29, 29, 29, 29, 29, 29, 29, 29, 29, 29, 29, 29, 29, 29, 29, 29, 29, 29, 29, 29, 29, 29, 29, 29, 29, 29, 29, 29,
    29, 29, 29, 29, 29, 29, 3, 3, 3, 3, 3, 3, 3, 3, 3, 3, 3, 29, 42, 42, 42, 42, 42, 42, 42, 42, 42, 42, 42, 42, 42, 42,
    24, 24, 24, 24, 24, 24, 24, 24, 24, 24, 29, 29, 29, 29, 29, 29, 29, 29, 29, 29, 29, 29, 29, 29, 29, 29, 29, 29, 29, 29, 29, 29,
    29, 29, 29, 29, 29, 29, 29, 29, 29, 29, 29, 3, 3, 3, 3, 3, 3, 3, 3, 3, 29, 29, 29, 29, 23, 18, 29, 42, 42, 3, 26, 26,
];

const PAGE_007: [u8; 256] = [
    29, 29, 29, 29, 29, 29, 29, 29, 29, 29, 29, 29, 29, 29, 29, 29, 29, 29, 29, 29, 29, 29, 3, 3, 3, 3, 29, 3, 3, 3, 3, 3,
    3, 3, 3, 3, 29, 3, 3, 3, 29, 3, 3, 3, 3, 3, 42, 42, 29, 29, 29, 29, 29, 29, 29, 29, 29, 29, 29, 29, 29, 29, 29, 42,
    29, 29, 29, 29, 29, 29, 29, 29, 29, 29, 29, 29, 29, 29, 29, 29, 29, 29, 29, 29, 29, 29, 29, 29, 29, 3, 3, 3, 42, 42, 29, 42,
    29, 29, 29, 29, 29, 29, 29, 29, 29, 29, 29, 42, 42, 42, 42, 42, 29, 29, 29, 29, 29, 29, 29, 29, 29, 29, 29, 29, 29, 29, 29, 29,
    29, 29, 29, 29, 29, 29, 29, 29, 29, 29, 29, 29, 29, 29, 29, 42, 29, 29, 42, 42, 42, 42, 42, 42, 3, 3, 3, 3, 3, 3, 3, 3,
    29, 29, 29, 29, 29, 29, 29, 29, 29, 29, 29, 29, 29, 29, 29, 29, 29, 29, 29, 29, 29, 29, 29, 29, 29, 29, 29, 29, 29, 29, 29, 29,
    29, 29, 29, 29, 29, 29, 29, 29, 29, 29, 3, 3, 3, 3, 3, 3, 3, 3, 3, 3, 3, 3, 3, 3, 3, 3, 3, 3, 3, 3, 3, 3,
    3, 3, 29, 3, 3, 3, 3, 3, 3, 3, 3, 3, 3, 3, 3, 3, 3, 3, 3, 3, 3, 3, 3, 3, 3, 3, 3, 3, 3, 3, 3, 3,
];

const PAGE_008: [u8; 256] = [
    3, 3, 3, 3, 29, 29, 29, 29, 29, 29, 29, 29, 29, 29, 29, 29, 29, 29, 29, 29, 29, 29, 29, 29, 29, 29, 29, 29, 29, 29, 29, 29,
    29, 29, 29, 29, 29, 29, 29, 29, 29, 29, 29, 29, 29, 29, 29, 29, 29, 29, 29, 29, 29, 29, 29, 29, 29, 29, 3, 3, 3, 29, 3, 3,
    3, 3, 3, 3, 3, 3, 3, 3, 3, 3, 3, 3, 3, 3, 3, 3, 29, 3, 3, 3, 3, 3, 3, 3, 29, 29, 29, 29, 29, 29, 29, 29,
    29, 29, 3, 3, 12, 12, 24, 24, 24, 24, 24, 24, 24, 24, 24, 24, 29, 29, 29, 29, 29, 29, 29, 29, 29, 29, 29, 29, 29, 29, 29, 29,
    29, 3, 3, 3, 42, 29, 29, 29, 29, 29, 29, 29, 29, 42, 42, 29, 29, 42, 42, 29, 29, 29, 29, 29, 29, 29, 29, 29, 29, 29, 29, 29,
    29, 29, 29, 29, 29, 29, 29, 29, 29, 42, 29, 29, 29, 29, 29, 29, 29, 42, 29, 42, 42, 42, 29, 29, 29, 29, 42, 42, 3, 29, 3, 3,
    3, 3, 3, 3, 3, 42, 42, 3, 3, 42, 42, 3, 3, 3, 29, 42, 42, 42, 42, 42, 42, 42, 42, 3, 42, 42, 42, 42, 29, 29, 42, 29,
    29, 29, 3, 3, 42, 42, 24, 24, 24, 24, 24, 24, 24, 24, 24, 24, 29, 29, 25, 25, 29, 29, 29, 29, 29, 25, 29, 26, 29, 29, 3, 42,
];

const PAGE_009: [u8; 256] = [
    42, 3, 3, 3, 42, 29, 29, 29, 29, 29, 29, 42, 42, 42, 42, 29, 29, 42, 42, 29, 29, 29, 29, 29, 29, 29, 29, 29, 29, 29, 29, 29,
    29, 29, 29, 29, 29, 29, 29, 29, 29, 42, 29, 29, 29, 29, 29, 29, 29, 42, 29, 29, 42, 29, 29, 42, 29, 29, 42, 42, 3, 42, 3, 3,
    3, 3, 3, 42, 42, 42, 42, 3, 3, 42, 42, 3, 3, 3, 42, 42, 42, 3, 42, 42, 42, 42, 42, 42, 42, 29, 29, 29, 29, 42, 29, 42,
    42, 42, 42, 42, 42, 42, 24, 24, 24, 24, 24, 24, 24, 24, 24, 24, 3, 3, 29, 29, 29, 3, 29, 42, 42, 42, 42, 42, 42, 42, 42, 42,
    42, 3, 3, 3, 42, 29, 29, 29, 29, 29, 29, 29, 29, 29, 42, 29, 29, 29, 42, 29, 29, 29, 29, 29, 29, 29, 29, 29, 29, 29, 29, 29,
    29, 29, 29, 29, 29, 29, 29, 29, 29, 42, 29, 29, 29, 29, 29, 29, 29, 42, 29, 29, 42, 29, 29, 29, 29, 29, 42, 42, 3, 29, 3, 3,
    3, 3, 3, 3, 3, 3, 42, 3, 3, 3, 42, 3, 3, 3, 42, 42, 29, 42, 42, 42, 42, 42, 42, 42, 42, 42, 42, 42, 42, 42, 42, 42,
    29, 29, 3, 3, 42, 42, 24, 24, 24, 24, 24, 24, 24, 24, 24, 24, 29, 26, 42, 42, 42, 42, 42, 42, 42, 29, 3, 3, 3, 3, 3, 3,
];

const PAGE_010: [u8; 256] = [
    42, 3, 3, 3, 42, 29, 29, 29, 29, 29, 29, 29, 29, 42, 42, 29, 29, 42, 42, 29, 29, 29, 29, 29, 29, 29, 29, 29, 29, 29, 29, 29,
    29, 29, 29, 29, 29, 29, 29, 29, 29, 42, 29, 29, 29, 29, 29, 29, 29, 42, 29, 29, 42, 29, 29, 29, 29, 29, 42, 42, 3, 29, 3, 3,
    3, 3, 3, 3, 3, 42, 42, 3, 3, 42, 42, 3, 3, 3, 42, 42, 42, 42, 42, 42, 42, 3, 3, 3, 42, 42, 42, 42, 29, 29, 42, 29,
    29, 29, 3, 3, 42, 42, 24, 24, 24, 24, 24, 24, 24, 24, 24, 24, 29, 29, 29, 29, 29, 29, 29, 29, 42, 42, 42, 42, 42, 42, 42, 42,
    42, 42, 3, 29, 42, 29, 29, 29, 29, 29, 29, 42, 42, 42, 29, 29, 29, 42, 29, 29, 29, 29, 42, 42, 42, 29, 29, 42, 29, 42, 29, 29,
    42, 42, 42, 29, 29, 42, 42, 42, 29, 29, 29, 42, 42, 42, 29, 29, 29, 29, 29, 29, 29, 29, 29, 29, 29, 29, 42, 42, 42, 42, 3, 3,
    3, 3, 3, 42, 42, 42, 3, 3, 3, 42, 3, 3, 3, 3, 42, 42, 29, 42, 42, 42, 42, 42, 42, 3, 42, 42, 42, 42, 42, 42, 42, 42,
    42, 42, 42, 42, 42, 42, 24, 24, 24, 24, 24, 24, 24, 24, 24, 24, 29, 29, 29, 29, 29, 29, 29, 29, 29, 26, 29, 42, 42, 42, 42, 42,
];

const PAGE_011: [u8; 256] = [
    3, 3, 3, 3, 3, 29, 29, 29, 29, 29, 29, 29, 29, 42, 29, 29, 29, 42, 29, 29, 29, 29, 29, 29, 29, 29, 29, 29, 29, 29, 29, 29,
    29, 29, 29, 29, 29, 29, 29, 29, 29, 42, 29, 29, 29, 29, 29, 29, 29, 29, 29, 29, 29, 29, 29, 29, 29, 29, 42, 42, 3, 29, 3, 3,
    3, 3, 3, 3, 3, 42, 3, 3, 3, 42, 3, 3, 3, 3, 42, 42, 42, 42, 42, 42, 42, 3, 3, 42, 29, 29, 29, 42, 42, 29, 42, 42,
    29, 29, 3, 3, 42, 42, 24, 24, 24, 24, 24, 24, 24, 24, 24, 24, 42, 42, 42, 42, 42, 42, 42, 13, 29, 29, 29, 29, 29, 29, 29, 29,
    29, 3, 3, 3, 13, 29, 29, 29, 29, 29, 29, 29, 29, 42, 29, 29, 29, 42, 29, 29, 29, 29, 29, 29, 29, 29, 29, 29, 29, 29, 29, 29,
    29, 29, 29, 29, 29, 29, 29, 29, 29, 42, 29, 29, 29, 29, 29, 29, 29, 29, 29, 29, 42, 29, 29, 29, 29, 29, 42, 42, 3, 29, 3, 3,
    3, 3, 3, 3, 3, 42, 3, 3, 3, 42, 3, 3, 3, 3, 42, 42, 42, 42, 42, 42, 42, 3, 3, 42, 42, 42, 42, 42, 42, 29, 29, 42,
    29, 29, 3, 3, 42, 42, 24, 24, 24, 24, 24, 24, 24, 24, 24, 24, 42, 29, 29, 3, 42, 42, 42, 42, 42, 42, 42, 42, 42, 42, 42, 42,
];

const PAGE_012: [u8; 256] = [
    3, 3, 3, 3, 29, 29, 29, 29, 29, 29, 29, 29, 29, 42, 29, 29, 29, 42, 29, 29, 29, 29, 29, 29, 29, 29, 29, 29, 29, 29, 29, 29,
    29, 29, 29, 29, 29, 29, 29, 29, 29, 29, 29, 29, 29, 29, 29, 29, 29, 29, 29, 29, 29, 29, 29, 29, 29, 29, 29, 3, 3, 29, 3, 3,
    3, 3, 3, 3, 3, 42, 3, 3, 3, 42, 3, 3, 3, 3, 29, 29, 42, 42, 42, 42, 29, 29, 29, 3, 29, 29, 29, 29, 29, 29, 29, 29,
    29, 29, 3, 3, 42, 42, 24, 24, 24, 24, 24, 24, 24, 24, 24, 24, 29, 29, 29, 29, 29, 29, 29, 29, 29, 25, 29, 29, 29, 29, 29, 29,
    42, 3, 3, 3, 42, 29, 29, 29, 29, 29, 29, 29, 29, 29, 29, 29, 29, 29, 29, 29, 29, 29, 29, 42, 42, 42, 29, 29, 29, 29, 29, 29,
    29, 29, 29, 29, 29, 29, 29, 29, 29, 29, 29, 29, 29, 29, 29, 29, 29, 29, 42, 29, 29, 29, 29, 29, 29, 29, 29, 29, 42, 29, 42, 42,
    29, 29, 29, 29, 29, 29, 29, 42, 42, 42, 3, 42, 42, 42, 42, 3, 3, 3, 3, 3, 3, 42, 3, 42, 3, 3, 3, 3, 3, 3, 3, 3,
    42, 42, 42, 42, 42, 42, 24, 24, 24, 24, 24, 24, 24, 24, 24, 24, 42, 42, 3, 3, 29, 42, 42, 42, 42, 42, 42, 42, 42, 42, 42, 42,
];

const PAGE_013: [u8; 256] = [
    42, 41, 41, 41, 41, 41, 41, 41, 41, 41, 41, 41, 41, 41, 41, 41, 41, 41, 41, 41, 41, 41, 41, 41, 41, 41, 41, 41, 41, 41, 41, 41,
    41, 41, 41, 41, 41, 41, 41, 41, 41, 41, 41, 41, 41, 41, 41, 41, 41, 41, 41, 41, 41, 41, 41, 41, 41, 41, 41, 42, 42, 42, 42, 26,
    41, 41, 41, 41, 41, 41, 41, 41, 41, 41, 41, 41, 41, 41, 41, 29, 24, 24, 24, 24, 24, 24, 24, 24, 24, 24, 12, 12, 42, 42, 42, 42,
    42, 42, 42, 42, 42, 42, 42, 42, 42, 42, 42, 42, 42, 42, 42, 42, 42, 42, 42, 42, 42, 42, 42, 42, 42, 42, 42, 42, 42, 42, 42, 42,
    42, 41, 41, 42, 41, 42, 41, 41, 41, 41, 41, 42, 41, 41, 41, 41, 41, 41, 41, 41, 41, 41, 41, 41, 41, 41, 41, 41, 41, 41, 41, 41,
    41, 41, 41, 41, 42, 41, 42, 41, 41, 41, 41, 41, 41, 41, 41, 41, 41, 41, 41, 41, 41, 41, 41, 41, 41, 41, 41, 41, 41, 41, 42, 42,
    41, 41, 41, 41, 41, 42, 41, 42, 41, 41, 41, 41, 41, 41, 41, 42, 24, 24, 24, 24, 24, 24, 24, 24, 24, 24, 42, 42, 41, 41, 41, 41,
    42, 42, 42, 42, 42, 42, 42, 42, 42, 42, 42, 42, 42, 42, 42, 42, 42, 42, 42, 42, 42, 42, 42, 42, 42, 42, 42, 42, 42, 42, 42, 42,
];

const PAGE_014: [u8; 256] = [
    29, 13, 13, 13, 13, 29, 13, 13, 8, 13, 13, 12, 8, 18, 18, 18, 18, 18, 8, 29, 18, 29, 29, 29, 3, 3, 29, 29, 29, 29, 29, 29,
    24, 24, 24, 24, 24, 24, 24, 24, 24, 24, 29, 29, 29, 29, 29, 29, 29, 29, 29, 29, 12, 3, 29, 3, 29, 3, 21, 16, 21, 16, 3, 3,
    29, 29, 29, 29, 29, 29, 29, 29, 42, 29, 29, 29, 29, 29, 29, 29, 29, 29, 29, 29, 29, 29, 29, 29, 29, 29, 29, 29, 29, 29, 29, 29,
    29, 29, 29, 29, 29, 29, 29, 29, 29, 29, 29, 29, 29, 42, 42, 42, 42, 3, 3, 3, 3, 3, 3, 3, 3, 3, 3, 3, 3, 3, 3, 12,
    3, 3, 3, 3, 3, 12, 3, 3, 29, 29, 29, 29, 29, 3, 3, 3, 3, 3, 3, 3, 3, 3, 3, 3, 42, 3, 3, 3, 3, 3, 3, 3,
    3, 3, 3, 3, 3, 3, 3, 3, 3, 3, 3, 3, 3, 3, 3, 3, 3, 3, 3, 3, 3, 3, 3, 3, 3, 3, 3, 3, 3, 42, 12, 12,
    29, 29, 29, 29, 29, 29, 3, 29, 29, 29, 29, 29, 29, 42, 29, 29, 13, 13, 12, 13, 29, 29, 29, 29, 29, 8, 8, 42, 42, 42, 42, 42,
    42, 42, 42, 42, 42, 42, 42, 42, 42, 42, 42, 42, 42, 42, 42, 42, 42, 42, 42, 42, 42, 42, 42, 42, 42, 42, 42, 42, 42, 42, 42, 42,
];

const PAGE_015: [u8; 256] = [
    41, 41, 41, 41, 41, 41, 41, 41, 41, 41, 41, 41, 41, 41, 41, 41, 41, 41, 41, 41, 41, 41, 41, 41, 41, 41, 41, 41, 41, 41, 41, 41,
    41, 41, 41, 41, 41, 41, 41, 41, 41, 41, 41, 41, 41, 41, 41, 41, 41, 41, 41, 41, 41, 41, 41, 41, 41, 41, 41, 41, 41, 41, 41, 41,
    24, 24, 24, 24, 24, 24, 24, 24, 24, 24, 12, 12, 29, 29, 29, 29, 41, 41, 41, 41, 41, 41, 41, 41, 41, 41, 41, 41, 41, 41, 41, 41,
    41, 41, 41, 41, 41, 41, 41, 41, 41, 41, 41, 41, 41, 41, 41, 41, 41, 41, 41, 41, 41, 41, 41, 41, 41, 41, 41, 41, 41, 41, 41, 41,
    41, 41, 41, 41, 41, 41, 41, 41, 41, 41, 41, 41, 41, 41, 41, 41, 24, 24, 24, 24, 24, 24, 24, 24, 24, 24, 41, 41, 41, 41, 41, 41,
    29, 29, 29, 29, 29, 29, 29, 29, 29, 29, 29, 29, 29, 29, 29, 29, 29, 29, 29, 29, 29, 29, 29, 29, 29, 29, 29, 29, 29, 29, 29, 29,
    29, 29, 29, 29, 29, 29, 42, 29, 42, 42, 42, 42, 42, 29, 42, 42, 29, 29, 29, 29, 29, 29, 29, 29, 29, 29, 29, 29, 29, 29, 29, 29,
    29, 29, 29, 29, 29, 29, 29, 29, 29, 29, 29, 29, 29, 29, 29, 29, 29, 29, 29, 29, 29, 29, 29, 29, 29, 29, 29, 29, 29, 29, 29, 29,
];

const PAGES: [[u8; 256]; 16] = [
    PAGE_000, PAGE_001, PAGE_002, PAGE_003, PAGE_004, PAGE_005, PAGE_006, PAGE_007,
    PAGE_008, PAGE_009, PAGE_010, PAGE_011, PAGE_012, PAGE_013, PAGE_014, PAGE_015,
];

/// Number of pages in this bank.
pub const LEN: usize = 16;

/// The class number that the page at `slot` lists for the code point whose low byte is `low`.
pub closed spec fn code_at(slot: int, low: int) -> u8
    recommends
        0 <= slot < LEN,
        0 <= low < 256,
{
    PAGES[slot][low]
}

/// Reads one class number.
pub fn code(slot: usize, low: usize) -> (code: u8)
    requires
        slot < LEN,
        low < 256,
    ensures
        code == code_at(slot as int, low as int),
{
    PAGES[slot][low]
}

} // verus!
