//! The page index: one entry for each block of 256 code points.
//!
//! An entry with `UNIFORM_PAGE` set holds, in its other bits, the number of the one class
//! that the whole block has. Any other entry is the number of the page that lists the
//! classes of the block's code points. The entries stand in rows of one plane each.

use vstd::prelude::*;

verus! {

const PLANE_00: [u16; 256] = [
    0x0000, 0x801d, 0x0001, 0x0002, 0x0003, 0x0004, 0x0005, 0x0006, 0x0007, 0x0008, 0x0009, 0x000a,
    0x000b, 0x000c, 0x000d, 0x000e, 0x000f, 0x0010, 0x0011, 0x0012, 0x0013, 0x801d, 0x0014, 0x0015,
    0x0016, 0x0017, 0x0018, 0x0019, 0x001a, 0x001b, 0x801d, 0x001c, 0x001d, 0x001e, 0x001f, 0x0020,
    0x0021, 0x0022, 0x0023, 0x0024, 0x801d, 0x0025, 0x801d, 0x0026, 0x0027, 0x0028, 0x0029, 0x002a,
    0x002b, 0x002c, 0x002d, 0x8024, 0x8024, 0x8024, 0x8024, 0x8024, 0x8024, 0x8024, 0x8024, 0x8024,
    0x8024, 0x8024, 0x8024, 0x8024, 0x8024, 0x8024, 0x8024, 0x8024, 0x8024, 0x8024, 0x8024, 0x8024,
    0x8024, 0x8024, 0x8024, 0x8024, 0x8024, 0x002e, 0x8024, 0x8024, 0x8024, 0x8024, 0x8024, 0x8024,
    0x8024, 0x8024, 0x8024, 0x8024, 0x8024, 0x8024, 0x8024, 0x8024, 0x8024, 0x8024, 0x8024, 0x8024,
    0x8024, 0x8024, 0x8024, 0x8024, 0x8024, 0x8024, 0x8024, 0x8024, 0x8024, 0x8024, 0x8024, 0x8024,
    0x8024, 0x8024, 0x8024, 0x8024, 0x8024, 0x8024, 0x8024, 0x8024, 0x8024, 0x8024, 0x8024, 0x8024,
    0x8024, 0x8024, 0x8024, 0x8024, 0x8024, 0x8024, 0x8024, 0x8024, 0x8024, 0x8024, 0x8024, 0x8024,
    0x8024, 0x8024, 0x8024, 0x8024, 0x8024, 0x8024, 0x8024, 0x8024, 0x8024, 0x8024, 0x8024, 0x8024,
    0x8024, 0x8024, 0x8024, 0x8024, 0x8024, 0x8024, 0x8024, 0x8024, 0x8024, 0x8024, 0x8024, 0x8024,
    0x8024, 0x8024, 0x8024, 0x8024, 0x002f, 0x8024, 0x8024, 0x8024, 0x0030, 0x801d, 0x0031, 0x0032,
    0x0033, 0x0034, 0x0035, 0x0036, 0x0037, 0x0038, 0x0039, 0x003a, 0x003b, 0x003c, 0x003d, 0x0037,
    0x0038, 0x0039, 0x003a, 0x003b, 0x003c, 0x003d, 0x0037, 0x0038, 0x0039, 0x003a, 0x003b, 0x003c,
    0x003d, 0x0037, 0x0038, 0x0039, 0x003a, 0x003b, 0x003c, 0x003d, 0x0037, 0x0038, 0x0039, 0x003a,
    0x003b, 0x003c, 0x003d, 0x0037, 0x0038, 0x0039, 0x003a, 0x003b, 0x003c, 0x003d, 0x0037, 0x003e,
    0x8005, 0x8005, 0x8005, 0x8005, 0x8005, 0x8005, 0x8005, 0x8005, 0x802a, 0x802a, 0x802a, 0x802a,
    0x802a, 0x802a, 0x802a, 0x802a, 0x802a, 0x802a, 0x802a, 0x802a, 0x802a, 0x802a, 0x802a, 0x802a,
    0x802a, 0x802a, 0x802a, 0x802a, 0x802a, 0x802a, 0x802a, 0x802a, 0x802a, 0x8024, 0x8024, 0x003f,
    0x801d, 0x0040, 0x0041, 0x0042,
];

const PLANE_01: [u16; 256] = [
    0x0043, 0x0044, 0x0045, 0x0046, 0x0047, 0x0048, 0x801d, 0x0049, 0x004a, 0x004b, 0x004c, 0x004d,
    0x004e, 0x004f, 0x0050, 0x0051, 0x0052, 0x0053, 0x0054, 0x0055, 0x0056, 0x0057, 0x0058, 0x0059,
    0x005a, 0x005b, 0x005c, 0x005d, 0x005e, 0x005f, 0x0060, 0x0061, 0x801d, 0x801d, 0x801d, 0x0062,
    0x0063, 0x0064, 0x802a, 0x802a, 0x802a, 0x802a, 0x802a, 0x802a, 0x802a, 0x802a, 0x802a, 0x0065,
    0x801d, 0x801d, 0x0066, 0x0067, 0x0068, 0x802a, 0x802a, 0x802a, 0x802a, 0x802a, 0x802a, 0x802a,
    0x802a, 0x802a, 0x802a, 0x802a, 0x802a, 0x802a, 0x802a, 0x802a, 0x801d, 0x0069, 0x006a, 0x802a,
    0x802a, 0x802a, 0x802a, 0x802a, 0x802a, 0x802a, 0x802a, 0x802a, 0x802a, 0x802a, 0x802a, 0x802a,
    0x802a, 0x802a, 0x802a, 0x802a, 0x802a, 0x802a, 0x802a, 0x802a, 0x802a, 0x802a, 0x802a, 0x802a,
    0x802a, 0x802a, 0x802a, 0x802a, 0x802a, 0x802a, 0x802a, 0x802a, 0x801d, 0x801d, 0x006b, 0x006c,
    0x802a, 0x802a, 0x006d, 0x006e, 0x8024, 0x8024, 0x8024, 0x8024, 0x8024, 0x8024, 0x8024, 0x8024,
    0x8024, 0x8024, 0x8024, 0x8024, 0x8024, 0x8024, 0x8024, 0x8024, 0x8024, 0x8024, 0x8024, 0x8024,
    0x8024, 0x8024, 0x8024, 0x006f, 0x8024, 0x8024, 0x8024, 0x801d, 0x0070, 0x0071, 0x802a, 0x802a,
    0x802a, 0x802a, 0x802a, 0x802a, 0x802a, 0x802a, 0x802a, 0x802a, 0x802a, 0x802a, 0x802a, 0x802a,
    0x802a, 0x802a, 0x802a, 0x802a, 0x802a, 0x802a, 0x802a, 0x802a, 0x802a, 0x802a, 0x802a, 0x802a,
    0x802a, 0x802a, 0x802a, 0x802a, 0x802a, 0x802a, 0x802a, 0x0072, 0x8024, 0x0073, 0x0074, 0x802a,
    0x802a, 0x802a, 0x802a, 0x802a, 0x802a, 0x802a, 0x802a, 0x802a, 0x0075, 0x802a, 0x802a, 0x802a,
    0x802a, 0x802a, 0x802a, 0x802a, 0x802a, 0x802a, 0x802a, 0x802a, 0x802a, 0x802a, 0x802a, 0x802a,
    0x802a, 0x802a, 0x802a, 0x0076, 0x0077, 0x0078, 0x0079, 0x007a, 0x007b, 0x007c, 0x007d, 0x007e,
    0x801d, 0x801d, 0x007f, 0x802a, 0x802a, 0x802a, 0x802a, 0x0080, 0x0081, 0x0082, 0x0083, 0x802a,
    0x0084, 0x802a, 0x802a, 0x0085, 0x0086, 0x0087, 0x802a, 0x802a, 0x0088, 0x0089, 0x008a, 0x802a,
    0x8024, 0x008b, 0x8024, 0x008c, 0x008d, 0x008e, 0x008f, 0x0090, 0x0091, 0x0092, 0x0093, 0x0094,
    0x8024, 0x8024, 0x8024, 0x0095,
];

const PLANE_02: [u16; 256] = [
    0x8024, 0x8024, 0x8024, 0x8024, 0x8024, 0x8024, 0x8024, 0x8024, 0x8024, 0x8024, 0x8024, 0x8024,
    0x8024, 0x8024, 0x8024, 0x8024, 0x8024, 0x8024, 0x8024, 0x8024, 0x8024, 0x8024, 0x8024, 0x8024,
    0x8024, 0x8024, 0x8024, 0x8024, 0x8024, 0x8024, 0x8024, 0x8024, 0x8024, 0x8024, 0x8024, 0x8024,
    0x8024, 0x8024, 0x8024, 0x8024, 0x8024, 0x8024, 0x8024, 0x8024, 0x8024, 0x8024, 0x8024, 0x8024,
    0x8024, 0x8024, 0x8024, 0x8024, 0x8024, 0x8024, 0x8024, 0x8024, 0x8024, 0x8024, 0x8024, 0x8024,
    0x8024, 0x8024, 0x8024, 0x8024, 0x8024, 0x8024, 0x8024, 0x8024, 0x8024, 0x8024, 0x8024, 0x8024,
    0x8024, 0x8024, 0x8024, 0x8024, 0x8024, 0x8024, 0x8024, 0x8024, 0x8024, 0x8024, 0x8024, 0x8024,
    0x8024, 0x8024, 0x8024, 0x8024, 0x8024, 0x8024, 0x8024, 0x8024, 0x8024, 0x8024, 0x8024, 0x8024,
    0x8024, 0x8024, 0x8024, 0x8024, 0x8024, 0x8024, 0x8024, 0x8024, 0x8024, 0x8024, 0x8024, 0x8024,
    0x8024, 0x8024, 0x8024, 0x8024, 0x8024, 0x8024, 0x8024, 0x8024, 0x8024, 0x8024, 0x8024, 0x8024,
    0x8024, 0x8024, 0x8024, 0x8024, 0x8024, 0x8024, 0x8024, 0x8024, 0x8024, 0x8024, 0x8024, 0x8024,
    0x8024, 0x8024, 0x8024, 0x8024, 0x8024, 0x8024, 0x8024, 0x8024, 0x8024, 0x8024, 0x8024, 0x8024,
    0x8024, 0x8024, 0x8024, 0x8024, 0x8024, 0x8024, 0x8024, 0x8024, 0x8024, 0x8024, 0x8024, 0x8024,
    0x8024, 0x8024, 0x8024, 0x8024, 0x8024, 0x8024, 0x8024, 0x8024, 0x8024, 0x8024, 0x8024, 0x8024,
    0x8024, 0x8024, 0x8024, 0x8024, 0x8024, 0x8024, 0x8024, 0x8024, 0x8024, 0x8024, 0x8024, 0x8024,
    0x8024, 0x8024, 0x8024, 0x8024, 0x8024, 0x8024, 0x8024, 0x8024, 0x8024, 0x8024, 0x8024, 0x8024,
    0x8024, 0x8024, 0x8024, 0x8024, 0x8024, 0x8024, 0x8024, 0x8024, 0x8024, 0x8024, 0x8024, 0x8024,
    0x8024, 0x8024, 0x8024, 0x8024, 0x8024, 0x8024, 0x8024, 0x8024, 0x8024, 0x8024, 0x8024, 0x8024,
    0x8024, 0x8024, 0x8024, 0x8024, 0x8024, 0x8024, 0x8024, 0x8024, 0x8024, 0x8024, 0x8024, 0x8024,
    0x8024, 0x8024, 0x8024, 0x8024, 0x8024, 0x8024, 0x8024, 0x8024, 0x8024, 0x8024, 0x8024, 0x8024,
    0x8024, 0x8024, 0x8024, 0x8024, 0x8024, 0x8024, 0x8024, 0x8024, 0x8024, 0x8024, 0x8024, 0x8024,
    0x8024, 0x8024, 0x8024, 0x0095,
];

const PLANE_03: [u16; 256] = [
    0x8024, 0x8024, 0x8024, 0x8024, 0x8024, 0x8024, 0x8024, 0x8024, 0x8024, 0x8024, 0x8024, 0x8024,
    0x8024, 0x8024, 0x8024, 0x8024, 0x8024, 0x8024, 0x8024, 0x8024, 0x8024, 0x8024, 0x8024, 0x8024,
    0x8024, 0x8024, 0x8024, 0x8024, 0x8024, 0x8024, 0x8024, 0x8024, 0x8024, 0x8024, 0x8024, 0x8024,
    0x8024, 0x8024, 0x8024, 0x8024, 0x8024, 0x8024, 0x8024, 0x8024, 0x8024, 0x8024, 0x8024, 0x8024,
    0x8024, 0x8024, 0x8024, 0x8024, 0x8024, 0x8024, 0x8024, 0x8024, 0x8024, 0x8024, 0x8024, 0x8024,
    0x8024, 0x8024, 0x8024, 0x8024, 0x8024, 0x8024, 0x8024, 0x8024, 0x8024, 0x8024, 0x8024, 0x8024,
    0x8024, 0x8024, 0x8024, 0x8024, 0x8024, 0x8024, 0x8024, 0x8024, 0x8024, 0x8024, 0x8024, 0x8024,
    0x8024, 0x8024, 0x8024, 0x8024, 0x8024, 0x8024, 0x8024, 0x8024, 0x8024, 0x8024, 0x8024, 0x8024,
    0x8024, 0x8024, 0x8024, 0x8024, 0x8024, 0x8024, 0x8024, 0x8024, 0x8024, 0x8024, 0x8024, 0x8024,
    0x8024, 0x8024, 0x8024, 0x8024, 0x8024, 0x8024, 0x8024, 0x8024, 0x8024, 0x8024, 0x8024, 0x8024,
    0x8024, 0x8024, 0x8024, 0x8024, 0x8024, 0x8024, 0x8024, 0x8024, 0x8024, 0x8024, 0x8024, 0x8024,
    0x8024, 0x8024, 0x8024, 0x8024, 0x8024, 0x8024, 0x8024, 0x8024, 0x8024, 0x8024, 0x8024, 0x8024,
    0x8024, 0x8024, 0x8024, 0x8024, 0x8024, 0x8024, 0x8024, 0x8024, 0x8024, 0x8024, 0x8024, 0x8024,
    0x8024, 0x8024, 0x8024, 0x8024, 0x8024, 0x8024, 0x8024, 0x8024, 0x8024, 0x8024, 0x8024, 0x8024,
    0x8024, 0x8024, 0x8024, 0x8024, 0x8024, 0x8024, 0x8024, 0x8024, 0x8024, 0x8024, 0x8024, 0x8024,
    0x8024, 0x8024, 0x8024, 0x8024, 0x8024, 0x8024, 0x8024, 0x8024, 0x8024, 0x8024, 0x8024, 0x8024,
    0x8024, 0x8024, 0x8024, 0x8024, 0x8024, 0x8024, 0x8024, 0x8024, 0x8024, 0x8024, 0x8024, 0x8024,
    0x8024, 0x8024, 0x8024, 0x8024, 0x8024, 0x8024, 0x8024, 0x8024, 0x8024, 0x8024, 0x8024, 0x8024,
    0x8024, 0x8024, 0x8024, 0x8024, 0x8024, 0x8024, 0x8024, 0x8024, 0x8024, 0x8024, 0x8024, 0x8024,
    0x8024, 0x8024, 0x8024, 0x8024, 0x8024, 0x8024, 0x8024, 0x8024, 0x8024, 0x8024, 0x8024, 0x8024,
    0x8024, 0x8024, 0x8024, 0x8024, 0x8024, 0x8024, 0x8024, 0x8024, 0x8024, 0x8024, 0x8024, 0x8024,
    0x8024, 0x8024, 0x8024, 0x0095,
];

const PLANE_04: [u16; 256] = [
    0x802a, 0x802a, 0x802a, 0x802a, 0x802a, 0x802a, 0x802a, 0x802a, 0x802a, 0x802a, 0x802a, 0x802a,
    0x802a, 0x802a, 0x802a, 0x802a, 0x802a, 0x802a, 0x802a, 0x802a, 0x802a, 0x802a, 0x802a, 0x802a,
    0x802a, 0x802a, 0x802a, 0x802a, 0x802a, 0x802a, 0x802a, 0x802a, 0x802a, 0x802a, 0x802a, 0x802a,
    0x802a, 0x802a, 0x802a, 0x802a, 0x802a, 0x802a, 0x802a, 0x802a, 0x802a, 0x802a, 0x802a, 0x802a,
    0x802a, 0x802a, 0x802a, 0x802a, 0x802a, 0x802a, 0x802a, 0x802a, 0x802a, 0x802a, 0x802a, 0x802a,
    0x802a, 0x802a, 0x802a, 0x802a, 0x802a, 0x802a, 0x802a, 0x802a, 0x802a, 0x802a, 0x802a, 0x802a,
    0x802a, 0x802a, 0x802a, 0x802a, 0x802a, 0x802a, 0x802a, 0x802a, 0x802a, 0x802a, 0x802a, 0x802a,
    0x802a, 0x802a, 0x802a, 0x802a, 0x802a, 0x802a, 0x802a, 0x802a, 0x802a, 0x802a, 0x802a, 0x802a,
    0x802a, 0x802a, 0x802a, 0x802a, 0x802a, 0x802a, 0x802a, 0x802a, 0x802a, 0x802a, 0x802a, 0x802a,
    0x802a, 0x802a, 0x802a, 0x802a, 0x802a, 0x802a, 0x802a, 0x802a, 0x802a, 0x802a, 0x802a, 0x802a,
    0x802a, 0x802a, 0x802a, 0x802a, 0x802a, 0x802a, 0x802a, 0x802a, 0x802a, 0x802a, 0x802a, 0x802a,
    0x802a, 0x802a, 0x802a, 0x802a, 0x802a, 0x802a, 0x802a, 0x802a, 0x802a, 0x802a, 0x802a, 0x802a,
    0x802a, 0x802a, 0x802a, 0x802a, 0x802a, 0x802a, 0x802a, 0x802a, 0x802a, 0x802a, 0x802a, 0x802a,
    0x802a, 0x802a, 0x802a, 0x802a, 0x802a, 0x802a, 0x802a, 0x802a, 0x802a, 0x802a, 0x802a, 0x802a,
    0x802a, 0x802a, 0x802a, 0x802a, 0x802a, 0x802a, 0x802a, 0x802a, 0x802a, 0x802a, 0x802a, 0x802a,
    0x802a, 0x802a, 0x802a, 0x802a, 0x802a, 0x802a, 0x802a, 0x802a, 0x802a, 0x802a, 0x802a, 0x802a,
    0x802a, 0x802a, 0x802a, 0x802a, 0x802a, 0x802a, 0x802a, 0x802a, 0x802a, 0x802a, 0x802a, 0x802a,
    0x802a, 0x802a, 0x802a, 0x802a, 0x802a, 0x802a, 0x802a, 0x802a, 0x802a, 0x802a, 0x802a, 0x802a,
    0x802a, 0x802a, 0x802a, 0x802a, 0x802a, 0x802a, 0x802a, 0x802a, 0x802a, 0x802a, 0x802a, 0x802a,
    0x802a, 0x802a, 0x802a, 0x802a, 0x802a, 0x802a, 0x802a, 0x802a, 0x802a, 0x802a, 0x802a, 0x802a,
    0x802a, 0x802a, 0x802a, 0x802a, 0x802a, 0x802a, 0x802a, 0x802a, 0x802a, 0x802a, 0x802a, 0x802a,
    0x802a, 0x802a, 0x802a, 0x802a,
];

const PLANE_05: [u16; 256] = [
    0x802a, 0x802a, 0x802a, 0x802a, 0x802a, 0x802a, 0x802a, 0x802a, 0x802a, 0x802a, 0x802a, 0x802a,
    0x802a, 0x802a, 0x802a, 0x802a, 0x802a, 0x802a, 0x802a, 0x802a, 0x802a, 0x802a, 0x802a, 0x802a,
    0x802a, 0x802a, 0x802a, 0x802a, 0x802a, 0x802a, 0x802a, 0x802a, 0x802a, 0x802a, 0x802a, 0x802a,
    0x802a, 0x802a, 0x802a, 0x802a, 0x802a, 0x802a, 0x802a, 0x802a, 0x802a, 0x802a, 0x802a, 0x802a,
    0x802a, 0x802a, 0x802a, 0x802a, 0x802a, 0x802a, 0x802a, 0x802a, 0x802a, 0x802a, 0x802a, 0x802a,
    0x802a, 0x802a, 0x802a, 0x802a, 0x802a, 0x802a, 0x802a, 0x802a, 0x802a, 0x802a, 0x802a, 0x802a,
    0x802a, 0x802a, 0x802a, 0x802a, 0x802a, 0x802a, 0x802a, 0x802a, 0x802a, 0x802a, 0x802a, 0x802a,
    0x802a, 0x802a, 0x802a, 0x802a, 0x802a, 0x802a, 0x802a, 0x802a, 0x802a, 0x802a, 0x802a, 0x802a,
    0x802a, 0x802a, 0x802a, 0x802a, 0x802a, 0x802a, 0x802a, 0x802a, 0x802a, 0x802a, 0x802a, 0x802a,
    0x802a, 0x802a, 0x802a, 0x802a, 0x802a, 0x802a, 0x802a, 0x802a, 0x802a, 0x802a, 0x802a, 0x802a,
    0x802a, 0x802a, 0x802a, 0x802a, 0x802a, 0x802a, 0x802a, 0x802a, 0x802a, 0x802a, 0x802a, 0x802a,
    0x802a, 0x802a, 0x802a, 0x802a, 0x802a, 0x802a, 0x802a, 0x802a, 0x802a, 0x802a, 0x802a, 0x802a,
    0x802a, 0x802a, 0x802a, 0x802a, 0x802a, 0x802a, 0x802a, 0x802a, 0x802a, 0x802a, 0x802a, 0x802a,
    0x802a, 0x802a, 0x802a, 0x802a, 0x802a, 0x802a, 0x802a, 0x802a, 0x802a, 0x802a, 0x802a, 0x802a,
    0x802a, 0x802a, 0x802a, 0x802a, 0x802a, 0x802a, 0x802a, 0x802a, 0x802a, 0x802a, 0x802a, 0x802a,
    0x802a, 0x802a, 0x802a, 0x802a, 0x802a, 0x802a, 0x802a, 0x802a, 0x802a, 0x802a, 0x802a, 0x802a,
    0x802a, 0x802a, 0x802a, 0x802a, 0x802a, 0x802a, 0x802a, 0x802a, 0x802a, 0x802a, 0x802a, 0x802a,
    0x802a, 0x802a, 0x802a, 0x802a, 0x802a, 0x802a, 0x802a, 0x802a, 0x802a, 0x802a, 0x802a, 0x802a,
    0x802a, 0x802a, 0x802a, 0x802a, 0x802a, 0x802a, 0x802a, 0x802a, 0x802a, 0x802a, 0x802a, 0x802a,
    0x802a, 0x802a, 0x802a, 0x802a, 0x802a, 0x802a, 0x802a, 0x802a, 0x802a, 0x802a, 0x802a, 0x802a,
    0x802a, 0x802a, 0x802a, 0x802a, 0x802a, 0x802a, 0x802a, 0x802a, 0x802a, 0x802a, 0x802a, 0x802a,
    0x802a, 0x802a, 0x802a, 0x802a,
];

const PLANE_06: [u16; 256] = [
    0x802a, 0x802a, 0x802a, 0x802a, 0x802a, 0x802a, 0x802a, 0x802a, 0x802a, 0x802a, 0x802a, 0x802a,
    0x802a, 0x802a, 0x802a, 0x802a, 0x802a, 0x802a, 0x802a, 0x802a, 0x802a, 0x802a, 0x802a, 0x802a,
    0x802a, 0x802a, 0x802a, 0x802a, 0x802a, 0x802a, 0x802a, 0x802a, 0x802a, 0x802a, 0x802a, 0x802a,
    0x802a, 0x802a, 0x802a, 0x802a, 0x802a, 0x802a, 0x802a, 0x802a, 0x802a, 0x802a, 0x802a, 0x802a,
    0x802a, 0x802a, 0x802a, 0x802a, 0x802a, 0x802a, 0x802a, 0x802a, 0x802a, 0x802a, 0x802a, 0x802a,
    0x802a, 0x802a, 0x802a, 0x802a, 0x802a, 0x802a, 0x802a, 0x802a, 0x802a, 0x802a, 0x802a, 0x802a,
    0x802a, 0x802a, 0x802a, 0x802a, 0x802a, 0x802a, 0x802a, 0x802a, 0x802a, 0x802a, 0x802a, 0x802a,
    0x802a, 0x802a, 0x802a, 0x802a, 0x802a, 0x802a, 0x802a, 0x802a, 0x802a, 0x802a, 0x802a, 0x802a,
    0x802a, 0x802a, 0x802a, 0x802a, 0x802a, 0x802a, 0x802a, 0x802a, 0x802a, 0x802a, 0x802a, 0x802a,
    0x802a, 0x802a, 0x802a, 0x802a, 0x802a, 0x802a, 0x802a, 0x802a, 0x802a, 0x802a, 0x802a, 0x802a,
    0x802a, 0x802a, 0x802a, 0x802a, 0x802a, 0x802a, 0x802a, 0x802a, 0x802a, 0x802a, 0x802a, 0x802a,
    0x802a, 0x802a, 0x802a, 0x802a, 0x802a, 0x802a, 0x802a, 0x802a, 0x802a, 0x802a, 0x802a, 0x802a,
    0x802a, 0x802a, 0x802a, 0x802a, 0x802a, 0x802a, 0x802a, 0x802a, 0x802a, 0x802a, 0x802a, 0x802a,
    0x802a, 0x802a, 0x802a, 0x802a, 0x802a, 0x802a, 0x802a, 0x802a, 0x802a, 0x802a, 0x802a, 0x802a,
    0x802a, 0x802a, 0x802a, 0x802a, 0x802a, 0x802a, 0x802a, 0x802a, 0x802a, 0x802a, 0x802a, 0x802a,
    0x802a, 0x802a, 0x802a, 0x802a, 0x802a, 0x802a, 0x802a, 0x802a, 0x802a, 0x802a, 0x802a, 0x802a,
    0x802a, 0x802a, 0x802a, 0x802a, 0x802a, 0x802a, 0x802a, 0x802a, 0x802a, 0x802a, 0x802a, 0x802a,
    0x802a, 0x802a, 0x802a, 0x802a, 0x802a, 0x802a, 0x802a, 0x802a, 0x802a, 0x802a, 0x802a, 0x802a,
    0x802a, 0x802a, 0x802a, 0x802a, 0x802a, 0x802a, 0x802a, 0x802a, 0x802a, 0x802a, 0x802a, 0x802a,
    0x802a, 0x802a, 0x802a, 0x802a, 0x802a, 0x802a, 0x802a, 0x802a, 0x802a, 0x802a, 0x802a, 0x802a,
    0x802a, 0x802a, 0x802a, 0x802a, 0x802a, 0x802a, 0x802a, 0x802a, 0x802a, 0x802a, 0x802a, 0x802a,
    0x802a, 0x802a, 0x802a, 0x802a,
];

const PLANE_07: [u16; 256] = [
    0x802a, 0x802a, 0x802a, 0x802a, 0x802a, 0x802a, 0x802a, 0x802a, 0x802a, 0x802a, 0x802a, 0x802a,
    0x802a, 0x802a, 0x802a, 0x802a, 0x802a, 0x802a, 0x802a, 0x802a, 0x802a, 0x802a, 0x802a, 0x802a,
    0x802a, 0x802a, 0x802a, 0x802a, 0x802a, 0x802a, 0x802a, 0x802a, 0x802a, 0x802a, 0x802a, 0x802a,
    0x802a, 0x802a, 0x802a, 0x802a, 0x802a, 0x802a, 0x802a, 0x802a, 0x802a, 0x802a, 0x802a, 0x802a,
    0x802a, 0x802a, 0x802a, 0x802a, 0x802a, 0x802a, 0x802a, 0x802a, 0x802a, 0x802a, 0x802a, 0x802a,
    0x802a, 0x802a, 0x802a, 0x802a, 0x802a, 0x802a, 0x802a, 0x802a, 0x802a, 0x802a, 0x802a, 0x802a,
    0x802a, 0x802a, 0x802a, 0x802a, 0x802a, 0x802a, 0x802a, 0x802a, 0x802a, 0x802a, 0x802a, 0x802a,
    0x802a, 0x802a, 0x802a, 0x802a, 0x802a, 0x802a, 0x802a, 0x802a, 0x802a, 0x802a, 0x802a, 0x802a,
    0x802a, 0x802a, 0x802a, 0x802a, 0x802a, 0x802a, 0x802a, 0x802a, 0x802a, 0x802a, 0x802a, 0x802a,
    0x802a, 0x802a, 0x802a, 0x802a, 0x802a, 0x802a, 0x802a, 0x802a, 0x802a, 0x802a, 0x802a, 0x802a,
    0x802a, 0x802a, 0x802a, 0x802a, 0x802a, 0x802a, 0x802a, 0x802a, 0x802a, 0x802a, 0x802a, 0x802a,
    0x802a, 0x802a, 0x802a, 0x802a, 0x802a, 0x802a, 0x802a, 0x802a, 0x802a, 0x802a, 0x802a, 0x802a,
    0x802a, 0x802a, 0x802a, 0x802a, 0x802a, 0x802a, 0x802a, 0x802a, 0x802a, 0x802a, 0x802a, 0x802a,
    0x802a, 0x802a, 0x802a, 0x802a, 0x802a, 0x802a, 0x802a, 0x802a, 0x802a, 0x802a, 0x802a, 0x802a,
    0x802a, 0x802a, 0x802a, 0x802a, 0x802a, 0x802a, 0x802a, 0x802a, 0x802a, 0x802a, 0x802a, 0x802a,
    0x802a, 0x802a, 0x802a, 0x802a, 0x802a, 0x802a, 0x802a, 0x802a, 0x802a, 0x802a, 0x802a, 0x802a,
    0x802a, 0x802a, 0x802a, 0x802a, 0x802a, 0x802a, 0x802a, 0x802a, 0x802a, 0x802a, 0x802a, 0x802a,
    0x802a, 0x802a, 0x802a, 0x802a, 0x802a, 0x802a, 0x802a, 0x802a, 0x802a, 0x802a, 0x802a, 0x802a,
    0x802a, 0x802a, 0x802a, 0x802a, 0x802a, 0x802a, 0x802a, 0x802a, 0x802a, 0x802a, 0x802a, 0x802a,
    0x802a, 0x802a, 0x802a, 0x802a, 0x802a, 0x802a, 0x802a, 0x802a, 0x802a, 0x802a, 0x802a, 0x802a,
    0x802a, 0x802a, 0x802a, 0x802a, 0x802a, 0x802a, 0x802a, 0x802a, 0x802a, 0x802a, 0x802a, 0x802a,
    0x802a, 0x802a, 0x802a, 0x802a,
];

const PLANE_08: [u16; 256] = [
    0x802a, 0x802a, 0x802a, 0x802a, 0x802a, 0x802a, 0x802a, 0x802a, 0x802a, 0x802a, 0x802a, 0x802a,
    0x802a, 0x802a, 0x802a, 0x802a, 0x802a, 0x802a, 0x802a, 0x802a, 0x802a, 0x802a, 0x802a, 0x802a,
    0x802a, 0x802a, 0x802a, 0x802a, 0x802a, 0x802a, 0x802a, 0x802a, 0x802a, 0x802a, 0x802a, 0x802a,
    0x802a, 0x802a, 0x802a, 0x802a, 0x802a, 0x802a, 0x802a, 0x802a, 0x802a, 0x802a, 0x802a, 0x802a,
    0x802a, 0x802a, 0x802a, 0x802a, 0x802a, 0x802a, 0x802a, 0x802a, 0x802a, 0x802a, 0x802a, 0x802a,
    0x802a, 0x802a, 0x802a, 0x802a, 0x802a, 0x802a, 0x802a, 0x802a, 0x802a, 0x802a, 0x802a, 0x802a,
    0x802a, 0x802a, 0x802a, 0x802a, 0x802a, 0x802a, 0x802a, 0x802a, 0x802a, 0x802a, 0x802a, 0x802a,
    0x802a, 0x802a, 0x802a, 0x802a, 0x802a, 0x802a, 0x802a, 0x802a, 0x802a, 0x802a, 0x802a, 0x802a,
    0x802a, 0x802a, 0x802a, 0x802a, 0x802a, 0x802a, 0x802a, 0x802a, 0x802a, 0x802a, 0x802a, 0x802a,
    0x802a, 0x802a, 0x802a, 0x802a, 0x802a, 0x802a, 0x802a, 0x802a, 0x802a, 0x802a, 0x802a, 0x802a,
    0x802a, 0x802a, 0x802a, 0x802a, 0x802a, 0x802a, 0x802a, 0x802a, 0x802a, 0x802a, 0x802a, 0x802a,
    0x802a, 0x802a, 0x802a, 0x802a, 0x802a, 0x802a, 0x802a, 0x802a, 0x802a, 0x802a, 0x802a, 0x802a,
    0x802a, 0x802a, 0x802a, 0x802a, 0x802a, 0x802a, 0x802a, 0x802a, 0x802a, 0x802a, 0x802a, 0x802a,
    0x802a, 0x802a, 0x802a, 0x802a, 0x802a, 0x802a, 0x802a, 0x802a, 0x802a, 0x802a, 0x802a, 0x802a,
    0x802a, 0x802a, 0x802a, 0x802a, 0x802a, 0x802a, 0x802a, 0x802a, 0x802a, 0x802a, 0x802a, 0x802a,
    0x802a, 0x802a, 0x802a, 0x802a, 0x802a, 0x802a, 0x802a, 0x802a, 0x802a, 0x802a, 0x802a, 0x802a,
    0x802a, 0x802a, 0x802a, 0x802a, 0x802a, 0x802a, 0x802a, 0x802a, 0x802a, 0x802a, 0x802a, 0x802a,
    0x802a, 0x802a, 0x802a, 0x802a, 0x802a, 0x802a, 0x802a, 0x802a, 0x802a, 0x802a, 0x802a, 0x802a,
    0x802a, 0x802a, 0x802a, 0x802a, 0x802a, 0x802a, 0x802a, 0x802a, 0x802a, 0x802a, 0x802a, 0x802a,
    0x802a, 0x802a, 0x802a, 0x802a, 0x802a, 0x802a, 0x802a, 0x802a, 0x802a, 0x802a, 0x802a, 0x802a,
    0x802a, 0x802a, 0x802a, 0x802a, 0x802a, 0x802a, 0x802a, 0x802a, 0x802a, 0x802a, 0x802a, 0x802a,
    0x802a, 0x802a, 0x802a, 0x802a,
];

const PLANE_09: [u16; 256] = [
    0x802a, 0x802a, 0x802a, 0x802a, 0x802a, 0x802a, 0x802a, 0x802a, 0x802a, 0x802a, 0x802a, 0x802a,
    0x802a, 0x802a, 0x802a, 0x802a, 0x802a, 0x802a, 0x802a, 0x802a, 0x802a, 0x802a, 0x802a, 0x802a,
    0x802a, 0x802a, 0x802a, 0x802a, 0x802a, 0x802a, 0x802a, 0x802a, 0x802a, 0x802a, 0x802a, 0x802a,
    0x802a, 0x802a, 0x802a, 0x802a, 0x802a, 0x802a, 0x802a, 0x802a, 0x802a, 0x802a, 0x802a, 0x802a,
    0x802a, 0x802a, 0x802a, 0x802a, 0x802a, 0x802a, 0x802a, 0x802a, 0x802a, 0x802a, 0x802a, 0x802a,
    0x802a, 0x802a, 0x802a, 0x802a, 0x802a, 0x802a, 0x802a, 0x802a, 0x802a, 0x802a, 0x802a, 0x802a,
    0x802a, 0x802a, 0x802a, 0x802a, 0x802a, 0x802a, 0x802a, 0x802a, 0x802a, 0x802a, 0x802a, 0x802a,
    0x802a, 0x802a, 0x802a, 0x802a, 0x802a, 0x802a, 0x802a, 0x802a, 0x802a, 0x802a, 0x802a, 0x802a,
    0x802a, 0x802a, 0x802a, 0x802a, 0x802a, 0x802a, 0x802a, 0x802a, 0x802a, 0x802a, 0x802a, 0x802a,
    0x802a, 0x802a, 0x802a, 0x802a, 0x802a, 0x802a, 0x802a, 0x802a, 0x802a, 0x802a, 0x802a, 0x802a,
    0x802a, 0x802a, 0x802a, 0x802a, 0x802a, 0x802a, 0x802a, 0x802a, 0x802a, 0x802a, 0x802a, 0x802a,
    0x802a, 0x802a, 0x802a, 0x802a, 0x802a, 0x802a, 0x802a, 0x802a, 0x802a, 0x802a, 0x802a, 0x802a,
    0x802a, 0x802a, 0x802a, 0x802a, 0x802a, 0x802a, 0x802a, 0x802a, 0x802a, 0x802a, 0x802a, 0x802a,
    0x802a, 0x802a, 0x802a, 0x802a, 0x802a, 0x802a, 0x802a, 0x802a, 0x802a, 0x802a, 0x802a, 0x802a,
    0x802a, 0x802a, 0x802a, 0x802a, 0x802a, 0x802a, 0x802a, 0x802a, 0x802a, 0x802a, 0x802a, 0x802a,
    0x802a, 0x802a, 0x802a, 0x802a, 0x802a, 0x802a, 0x802a, 0x802a, 0x802a, 0x802a, 0x802a, 0x802a,
    0x802a, 0x802a, 0x802a, 0x802a, 0x802a, 0x802a, 0x802a, 0x802a, 0x802a, 0x802a, 0x802a, 0x802a,
    0x802a, 0x802a, 0x802a, 0x802a, 0x802a, 0x802a, 0x802a, 0x802a, 0x802a, 0x802a, 0x802a, 0x802a,
    0x802a, 0x802a, 0x802a, 0x802a, 0x802a, 0x802a, 0x802a, 0x802a, 0x802a, 0x802a, 0x802a, 0x802a,
    0x802a, 0x802a, 0x802a, 0x802a, 0x802a, 0x802a, 0x802a, 0x802a, 0x802a, 0x802a, 0x802a, 0x802a,
    0x802a, 0x802a, 0x802a, 0x802a, 0x802a, 0x802a, 0x802a, 0x802a, 0x802a, 0x802a, 0x802a, 0x802a,
    0x802a, 0x802a, 0x802a, 0x802a,
];

const PLANE_10: [u16; 256] = [
    0x802a, 0x802a, 0x802a, 0x802a, 0x802a, 0x802a, 0x802a, 0x802a, 0x802a, 0x802a, 0x802a, 0x802a,
    0x802a, 0x802a, 0x802a, 0x802a, 0x802a, 0x802a, 0x802a, 0x802a, 0x802a, 0x802a, 0x802a, 0x802a,
    0x802a, 0x802a, 0x802a, 0x802a, 0x802a, 0x802a, 0x802a, 0x802a, 0x802a, 0x802a, 0x802a, 0x802a,
    0x802a, 0x802a, 0x802a, 0x802a, 0x802a, 0x802a, 0x802a, 0x802a, 0x802a, 0x802a, 0x802a, 0x802a,
    0x802a, 0x802a, 0x802a, 0x802a, 0x802a, 0x802a, 0x802a, 0x802a, 0x802a, 0x802a, 0x802a, 0x802a,
    0x802a, 0x802a, 0x802a, 0x802a, 0x802a, 0x802a, 0x802a, 0x802a, 0x802a, 0x802a, 0x802a, 0x802a,
    0x802a, 0x802a, 0x802a, 0x802a, 0x802a, 0x802a, 0x802a, 0x802a, 0x802a, 0x802a, 0x802a, 0x802a,
    0x802a, 0x802a, 0x802a, 0x802a, 0x802a, 0x802a, 0x802a, 0x802a, 0x802a, 0x802a, 0x802a, 0x802a,
    0x802a, 0x802a, 0x802a, 0x802a, 0x802a, 0x802a, 0x802a, 0x802a, 0x802a, 0x802a, 0x802a, 0x802a,
    0x802a, 0x802a, 0x802a, 0x802a, 0x802a, 0x802a, 0x802a, 0x802a, 0x802a, 0x802a, 0x802a, 0x802a,
    0x802a, 0x802a, 0x802a, 0x802a, 0x802a, 0x802a, 0x802a, 0x802a, 0x802a, 0x802a, 0x802a, 0x802a,
    0x802a, 0x802a, 0x802a, 0x802a, 0x802a, 0x802a, 0x802a, 0x802a, 0x802a, 0x802a, 0x802a, 0x802a,
    0x802a, 0x802a, 0x802a, 0x802a, 0x802a, 0x802a, 0x802a, 0x802a, 0x802a, 0x802a, 0x802a, 0x802a,
    0x802a, 0x802a, 0x802a, 0x802a, 0x802a, 0x802a, 0x802a, 0x802a, 0x802a, 0x802a, 0x802a, 0x802a,
    0x802a, 0x802a, 0x802a, 0x802a, 0x802a, 0x802a, 0x802a, 0x802a, 0x802a, 0x802a, 0x802a, 0x802a,
    0x802a, 0x802a, 0x802a, 0x802a, 0x802a, 0x802a, 0x802a, 0x802a, 0x802a, 0x802a, 0x802a, 0x802a,
    0x802a, 0x802a, 0x802a, 0x802a, 0x802a, 0x802a, 0x802a, 0x802a, 0x802a, 0x802a, 0x802a, 0x802a,
    0x802a, 0x802a, 0x802a, 0x802a, 0x802a, 0x802a, 0x802a, 0x802a, 0x802a, 0x802a, 0x802a, 0x802a,
    0x802a, 0x802a, 0x802a, 0x802a, 0x802a, 0x802a, 0x802a, 0x802a, 0x802a, 0x802a, 0x802a, 0x802a,
    0x802a, 0x802a, 0x802a, 0x802a, 0x802a, 0x802a, 0x802a, 0x802a, 0x802a, 0x802a, 0x802a, 0x802a,
    0x802a, 0x802a, 0x802a, 0x802a, 0x802a, 0x802a, 0x802a, 0x802a, 0x802a, 0x802a, 0x802a, 0x802a,
    0x802a, 0x802a, 0x802a, 0x802a,
];

const PLANE_11: [u16; 256] = [
    0x802a, 0x802a, 0x802a, 0x802a, 0x802a, 0x802a, 0x802a, 0x802a, 0x802a, 0x802a, 0x802a, 0x802a,
    0x802a, 0x802a, 0x802a, 0x802a, 0x802a, 0x802a, 0x802a, 0x802a, 0x802a, 0x802a, 0x802a, 0x802a,
    0x802a, 0x802a, 0x802a, 0x802a, 0x802a, 0x802a, 0x802a, 0x802a, 0x802a, 0x802a, 0x802a, 0x802a,
    0x802a, 0x802a, 0x802a, 0x802a, 0x802a, 0x802a, 0x802a, 0x802a, 0x802a, 0x802a, 0x802a, 0x802a,
    0x802a, 0x802a, 0x802a, 0x802a, 0x802a, 0x802a, 0x802a, 0x802a, 0x802a, 0x802a, 0x802a, 0x802a,
    0x802a, 0x802a, 0x802a, 0x802a, 0x802a, 0x802a, 0x802a, 0x802a, 0x802a, 0x802a, 0x802a, 0x802a,
    0x802a, 0x802a, 0x802a, 0x802a, 0x802a, 0x802a, 0x802a, 0x802a, 0x802a, 0x802a, 0x802a, 0x802a,
    0x802a, 0x802a, 0x802a, 0x802a, 0x802a, 0x802a, 0x802a, 0x802a, 0x802a, 0x802a, 0x802a, 0x802a,
    0x802a, 0x802a, 0x802a, 0x802a, 0x802a, 0x802a, 0x802a, 0x802a, 0x802a, 0x802a, 0x802a, 0x802a,
    0x802a, 0x802a, 0x802a, 0x802a, 0x802a, 0x802a, 0x802a, 0x802a, 0x802a, 0x802a, 0x802a, 0x802a,
    0x802a, 0x802a, 0x802a, 0x802a, 0x802a, 0x802a, 0x802a, 0x802a, 0x802a, 0x802a, 0x802a, 0x802a,
    0x802a, 0x802a, 0x802a, 0x802a, 0x802a, 0x802a, 0x802a, 0x802a, 0x802a, 0x802a, 0x802a, 0x802a,
    0x802a, 0x802a, 0x802a, 0x802a, 0x802a, 0x802a, 0x802a, 0x802a, 0x802a, 0x802a, 0x802a, 0x802a,
    0x802a, 0x802a, 0x802a, 0x802a, 0x802a, 0x802a, 0x802a, 0x802a, 0x802a, 0x802a, 0x802a, 0x802a,
    0x802a, 0x802a, 0x802a, 0x802a, 0x802a, 0x802a, 0x802a, 0x802a, 0x802a, 0x802a, 0x802a, 0x802a,
    0x802a, 0x802a, 0x802a, 0x802a, 0x802a, 0x802a, 0x802a, 0x802a, 0x802a, 0x802a, 0x802a, 0x802a,
    0x802a, 0x802a, 0x802a, 0x802a, 0x802a, 0x802a, 0x802a, 0x802a, 0x802a, 0x802a, 0x802a, 0x802a,
    0x802a, 0x802a, 0x802a, 0x802a, 0x802a, 0x802a, 0x802a, 0x802a, 0x802a, 0x802a, 0x802a, 0x802a,
    0x802a, 0x802a, 0x802a, 0x802a, 0x802a, 0x802a, 0x802a, 0x802a, 0x802a, 0x802a, 0x802a, 0x802a,
    0x802a, 0x802a, 0x802a, 0x802a, 0x802a, 0x802a, 0x802a, 0x802a, 0x802a, 0x802a, 0x802a, 0x802a,
    0x802a, 0x802a, 0x802a, 0x802a, 0x802a, 0x802a, 0x802a, 0x802a, 0x802a, 0x802a, 0x802a, 0x802a,
    0x802a, 0x802a, 0x802a, 0x802a,
];

const PLANE_12: [u16; 256] = [
    0x802a, 0x802a, 0x802a, 0x802a, 0x802a, 0x802a, 0x802a, 0x802a, 0x802a, 0x802a, 0x802a, 0x802a,
    0x802a, 0x802a, 0x802a, 0x802a, 0x802a, 0x802a, 0x802a, 0x802a, 0x802a, 0x802a, 0x802a, 0x802a,
    0x802a, 0x802a, 0x802a, 0x802a, 0x802a, 0x802a, 0x802a, 0x802a, 0x802a, 0x802a, 0x802a, 0x802a,
    0x802a, 0x802a, 0x802a, 0x802a, 0x802a, 0x802a, 0x802a, 0x802a, 0x802a, 0x802a, 0x802a, 0x802a,
    0x802a, 0x802a, 0x802a, 0x802a, 0x802a, 0x802a, 0x802a, 0x802a, 0x802a, 0x802a, 0x802a, 0x802a,
    0x802a, 0x802a, 0x802a, 0x802a, 0x802a, 0x802a, 0x802a, 0x802a, 0x802a, 0x802a, 0x802a, 0x802a,
    0x802a, 0x802a, 0x802a, 0x802a, 0x802a, 0x802a, 0x802a, 0x802a, 0x802a, 0x802a, 0x802a, 0x802a,
    0x802a, 0x802a, 0x802a, 0x802a, 0x802a, 0x802a, 0x802a, 0x802a, 0x802a, 0x802a, 0x802a, 0x802a,
    0x802a, 0x802a, 0x802a, 0x802a, 0x802a, 0x802a, 0x802a, 0x802a, 0x802a, 0x802a, 0x802a, 0x802a,
    0x802a, 0x802a, 0x802a, 0x802a, 0x802a, 0x802a, 0x802a, 0x802a, 0x802a, 0x802a, 0x802a, 0x802a,
    0x802a, 0x802a, 0x802a, 0x802a, 0x802a, 0x802a, 0x802a, 0x802a, 0x802a, 0x802a, 0x802a, 0x802a,
    0x802a, 0x802a, 0x802a, 0x802a, 0x802a, 0x802a, 0x802a, 0x802a, 0x802a, 0x802a, 0x802a, 0x802a,
    0x802a, 0x802a, 0x802a, 0x802a, 0x802a, 0x802a, 0x802a, 0x802a, 0x802a, 0x802a, 0x802a, 0x802a,
    0x802a, 0x802a, 0x802a, 0x802a, 0x802a, 0x802a, 0x802a, 0x802a, 0x802a, 0x802a, 0x802a, 0x802a,
    0x802a, 0x802a, 0x802a, 0x802a, 0x802a, 0x802a, 0x802a, 0x802a, 0x802a, 0x802a, 0x802a, 0x802a,
    0x802a, 0x802a, 0x802a, 0x802a, 0x802a, 0x802a, 0x802a, 0x802a, 0x802a, 0x802a, 0x802a, 0x802a,
    0x802a, 0x802a, 0x802a, 0x802a, 0x802a, 0x802a, 0x802a, 0x802a, 0x802a, 0x802a, 0x802a, 0x802a,
    0x802a, 0x802a, 0x802a, 0x802a, 0x802a, 0x802a, 0x802a, 0x802a, 0x802a, 0x802a, 0x802a, 0x802a,
    0x802a, 0x802a, 0x802a, 0x802a, 0x802a, 0x802a, 0x802a, 0x802a, 0x802a, 0x802a, 0x802a, 0x802a,
    0x802a, 0x802a, 0x802a, 0x802a, 0x802a, 0x802a, 0x802a, 0x802a, 0x802a, 0x802a, 0x802a, 0x802a,
    0x802a, 0x802a, 0x802a, 0x802a, 0x802a, 0x802a, 0x802a, 0x802a, 0x802a, 0x802a, 0x802a, 0x802a,
    0x802a, 0x802a, 0x802a, 0x802a,
];

const PLANE_13: [u16; 256] = [
    0x802a, 0x802a, 0x802a, 0x802a, 0x802a, 0x802a, 0x802a, 0x802a, 0x802a, 0x802a, 0x802a, 0x802a,
    0x802a, 0x802a, 0x802a, 0x802a, 0x802a, 0x802a, 0x802a, 0x802a, 0x802a, 0x802a, 0x802a, 0x802a,
    0x802a, 0x802a, 0x802a, 0x802a, 0x802a, 0x802a, 0x802a, 0x802a, 0x802a, 0x802a, 0x802a, 0x802a,
    0x802a, 0x802a, 0x802a, 0x802a, 0x802a, 0x802a, 0x802a, 0x802a, 0x802a, 0x802a, 0x802a, 0x802a,
    0x802a, 0x802a, 0x802a, 0x802a, 0x802a, 0x802a, 0x802a, 0x802a, 0x802a, 0x802a, 0x802a, 0x802a,
    0x802a, 0x802a, 0x802a, 0x802a, 0x802a, 0x802a, 0x802a, 0x802a, 0x802a, 0x802a, 0x802a, 0x802a,
    0x802a, 0x802a, 0x802a, 0x802a, 0x802a, 0x802a, 0x802a, 0x802a, 0x802a, 0x802a, 0x802a, 0x802a,
    0x802a, 0x802a, 0x802a, 0x802a, 0x802a, 0x802a, 0x802a, 0x802a, 0x802a, 0x802a, 0x802a, 0x802a,
    0x802a, 0x802a, 0x802a, 0x802a, 0x802a, 0x802a, 0x802a, 0x802a, 0x802a, 0x802a, 0x802a, 0x802a,
    0x802a, 0x802a, 0x802a, 0x802a, 0x802a, 0x802a, 0x802a, 0x802a, 0x802a, 0x802a, 0x802a, 0x802a,
    0x802a, 0x802a, 0x802a, 0x802a, 0x802a, 0x802a, 0x802a, 0x802a, 0x802a, 0x802a, 0x802a, 0x802a,
    0x802a, 0x802a, 0x802a, 0x802a, 0x802a, 0x802a, 0x802a, 0x802a, 0x802a, 0x802a, 0x802a, 0x802a,
    0x802a, 0x802a, 0x802a, 0x802a, 0x802a, 0x802a, 0x802a, 0x802a, 0x802a, 0x802a, 0x802a, 0x802a,
    0x802a, 0x802a, 0x802a, 0x802a, 0x802a, 0x802a, 0x802a, 0x802a, 0x802a, 0x802a, 0x802a, 0x802a,
    0x802a, 0x802a, 0x802a, 0x802a, 0x802a, 0x802a, 0x802a, 0x802a, 0x802a, 0x802a, 0x802a, 0x802a,
    0x802a, 0x802a, 0x802a, 0x802a, 0x802a, 0x802a, 0x802a, 0x802a, 0x802a, 0x802a, 0x802a, 0x802a,
    0x802a, 0x802a, 0x802a, 0x802a, 0x802a, 0x802a, 0x802a, 0x802a, 0x802a, 0x802a, 0x802a, 0x802a,
    0x802a, 0x802a, 0x802a, 0x802a, 0x802a, 0x802a, 0x802a, 0x802a, 0x802a, 0x802a, 0x802a, 0x802a,
    0x802a, 0x802a, 0x802a, 0x802a, 0x802a, 0x802a, 0x802a, 0x802a, 0x802a, 0x802a, 0x802a, 0x802a,
    0x802a, 0x802a, 0x802a, 0x802a, 0x802a, 0x802a, 0x802a, 0x802a, 0x802a, 0x802a, 0x802a, 0x802a,
    0x802a, 0x802a, 0x802a, 0x802a, 0x802a, 0x802a, 0x802a, 0x802a, 0x802a, 0x802a, 0x802a, 0x802a,
    0x802a, 0x802a, 0x802a, 0x802a,
];

const PLANE_14: [u16; 256] = [
    0x0096, 0x0097, 0x802a, 0x802a, 0x802a, 0x802a, 0x802a, 0x802a, 0x802a, 0x802a, 0x802a, 0x802a,
    0x802a, 0x802a, 0x802a, 0x802a, 0x802a, 0x802a, 0x802a, 0x802a, 0x802a, 0x802a, 0x802a, 0x802a,
    0x802a, 0x802a, 0x802a, 0x802a, 0x802a, 0x802a, 0x802a, 0x802a, 0x802a, 0x802a, 0x802a, 0x802a,
    0x802a, 0x802a, 0x802a, 0x802a, 0x802a, 0x802a, 0x802a, 0x802a, 0x802a, 0x802a, 0x802a, 0x802a,
    0x802a, 0x802a, 0x802a, 0x802a, 0x802a, 0x802a, 0x802a, 0x802a, 0x802a, 0x802a, 0x802a, 0x802a,
    0x802a, 0x802a, 0x802a, 0x802a, 0x802a, 0x802a, 0x802a, 0x802a, 0x802a, 0x802a, 0x802a, 0x802a,
    0x802a, 0x802a, 0x802a, 0x802a, 0x802a, 0x802a, 0x802a, 0x802a, 0x802a, 0x802a, 0x802a, 0x802a,
    0x802a, 0x802a, 0x802a, 0x802a, 0x802a, 0x802a, 0x802a, 0x802a, 0x802a, 0x802a, 0x802a, 0x802a,
    0x802a, 0x802a, 0x802a, 0x802a, 0x802a, 0x802a, 0x802a, 0x802a, 0x802a, 0x802a, 0x802a, 0x802a,
    0x802a, 0x802a, 0x802a, 0x802a, 0x802a, 0x802a, 0x802a, 0x802a, 0x802a, 0x802a, 0x802a, 0x802a,
    0x802a, 0x802a, 0x802a, 0x802a, 0x802a, 0x802a, 0x802a, 0x802a, 0x802a, 0x802a, 0x802a, 0x802a,
    0x802a, 0x802a, 0x802a, 0x802a, 0x802a, 0x802a, 0x802a, 0x802a, 0x802a, 0x802a, 0x802a, 0x802a,
    0x802a, 0x802a, 0x802a, 0x802a, 0x802a, 0x802a, 0x802a, 0x802a, 0x802a, 0x802a, 0x802a, 0x802a,
    0x802a, 0x802a, 0x802a, 0x802a, 0x802a, 0x802a, 0x802a, 0x802a, 0x802a, 0x802a, 0x802a, 0x802a,
    0x802a, 0x802a, 0x802a, 0x802a, 0x802a, 0x802a, 0x802a, 0x802a, 0x802a, 0x802a, 0x802a, 0x802a,
    0x802a, 0x802a, 0x802a, 0x802a, 0x802a, 0x802a, 0x802a, 0x802a, 0x802a, 0x802a, 0x802a, 0x802a,
    0x802a, 0x802a, 0x802a, 0x802a, 0x802a, 0x802a, 0x802a, 0x802a, 0x802a, 0x802a, 0x802a, 0x802a,
    0x802a, 0x802a, 0x802a, 0x802a, 0x802a, 0x802a, 0x802a, 0x802a, 0x802a, 0x802a, 0x802a, 0x802a,
    0x802a, 0x802a, 0x802a, 0x802a, 0x802a, 0x802a, 0x802a, 0x802a, 0x802a, 0x802a, 0x802a, 0x802a,
    0x802a, 0x802a, 0x802a, 0x802a, 0x802a, 0x802a, 0x802a, 0x802a, 0x802a, 0x802a, 0x802a, 0x802a,
    0x802a, 0x802a, 0x802a, 0x802a, 0x802a, 0x802a, 0x802a, 0x802a, 0x802a, 0x802a, 0x802a, 0x802a,
    0x802a, 0x802a, 0x802a, 0x802a,
];

const PLANES: [[u16; 256]; 15] = [
    PLANE_00, PLANE_01, PLANE_02, PLANE_03, PLANE_04, PLANE_05, PLANE_06, PLANE_07,
    PLANE_08, PLANE_09, PLANE_10, PLANE_11, PLANE_12, PLANE_13, PLANE_14,
];

/// Number of blocks that the index covers; the blocks above it hold no assigned code point.
pub const NUM_BLOCKS: usize = 3840;

/// The entry of block `block`.
pub closed spec fn entry_at(block: int) -> u16
    recommends
        0 <= block < NUM_BLOCKS,
{
    PLANES[block / 256][block % 256]
}

/// Reads the entry of one block.
pub fn entry(block: usize) -> (entry: u16)
    requires
        block < NUM_BLOCKS,
    ensures
        entry == entry_at(block as int),
{
    PLANES[block / 256][block % 256]
}

} // verus!
