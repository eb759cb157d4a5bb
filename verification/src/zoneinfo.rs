//! The bundled snapshot of the time zone database: the bytes of the
//! zone-information file of every zone. Zones that are names for another
//! zone share its bytes.

use vstd::prelude::*;

verus! {

/// `Africa/Abidjan`.
#[verifier::opaque]
pub const AFRICA_ABIDJAN: [u8; 130] = [
    84, 90, 105, 102, 50, 0, 0, 0, 0, 0, 0, 0, 0, 0, 0, 0, 0, 0, 0, 0, 0, 0, 0, 0, 0, 0, 0, 0, 0,
    0, 0, 0, 0, 0, 0, 0, 0, 0, 0, 1, 0, 0, 0, 1, 0, 0, 0, 0, 0, 0, 0, 84, 90, 105, 102, 50, 0, 0,
    0, 0, 0, 0, 0, 0, 0, 0, 0, 0, 0, 0, 0, 0, 0, 0, 0, 0, 0, 0, 0, 0, 0, 0, 0, 0, 0, 0, 1, 0, 0,
    0, 2, 0, 0, 0, 8, 255, 255, 255, 255, 146, 230, 146, 72, 1, 255, 255, 252, 56, 0, 0, 0, 0, 0,
    0, 0, 4, 76, 77, 84, 0, 71, 77, 84, 0, 10, 71, 77, 84, 48, 10,
];

/// `Africa/Algiers`.
#[verifier::opaque]
pub const AFRICA_ALGIERS: [u8; 470] = [
    84, 90, 105, 102, 50, 0, 0, 0, 0, 0, 0, 0, 0, 0, 0, 0, 0, 0, 0, 0, 0, 0, 0, 0, 0, 0, 0, 0, 0,
    0, 0, 0, 0, 0, 0, 0, 0, 0, 0, 1, 0, 0, 0, 1, 0, 0, 0, 0, 0, 0, 0, 84, 90, 105, 102, 50, 0, 0,
    0, 0, 0, 0, 0, 0, 0, 0, 0, 0, 0, 0, 0, 0, 0, 0, 0, 0, 0, 0, 0, 0, 0, 0, 0, 0, 0, 0, 34, 0, 0,
    0, 6, 0, 0, 0, 26, 255, 255, 255, 255, 107, 201, 155, 36, 255, 255, 255, 255, 145, 96, 80, 79,
    255, 255, 255, 255, 155, 71, 120, 240, 255, 255, 255, 255, 155, 215, 44, 112, 255, 255, 255,
    255, 156, 188, 145, 112, 255, 255, 255, 255, 157, 192, 72, 240, 255, 255, 255, 255, 158, 137,
    254, 112, 255, 255, 255, 255, 159, 160, 42, 240, 255, 255, 255, 255, 160, 96, 165, 240, 255,
    255, 255, 255, 161, 128, 12, 240, 255, 255, 255, 255, 162, 46, 18, 240, 255, 255, 255, 255,
    163, 122, 76, 240, 255, 255, 255, 255, 164, 53, 129, 240, 255, 255, 255, 255, 164, 184, 6,
    112, 255, 255, 255, 255, 198, 255, 6, 112, 255, 255, 255, 255, 199, 88, 186, 128, 255, 255,
    255, 255, 199, 218, 9, 160, 255, 255, 255, 255, 207, 146, 52, 16, 255, 255, 255, 255, 208,
    138, 0, 0, 255, 255, 255, 255, 209, 114, 22, 16, 255, 255, 255, 255, 210, 78, 36, 112, 255,
    255, 255, 255, 212, 75, 7, 112, 255, 255, 255, 255, 229, 206, 211, 0, 255, 255, 255, 255, 243,
    92, 176, 240, 0, 0, 0, 0, 2, 120, 193, 240, 0, 0, 0, 0, 3, 67, 200, 240, 0, 0, 0, 0, 13, 207,
    215, 0, 0, 0, 0, 0, 14, 173, 68, 240, 0, 0, 0, 0, 15, 120, 90, 0, 0, 0, 0, 0, 16, 104, 89, 16,
    0, 0, 0, 0, 18, 118, 67, 112, 0, 0, 0, 0, 19, 102, 66, 128, 0, 0, 0, 0, 20, 95, 124, 16, 0, 0,
    0, 0, 21, 79, 95, 0, 1, 3, 2, 3, 2, 3, 2, 3, 2, 3, 2, 3, 2, 3, 2, 3, 5, 4, 5, 4, 5, 3, 5, 3,
    2, 3, 2, 5, 4, 5, 3, 2, 3, 5, 0, 0, 2, 220, 0, 0, 0, 0, 2, 49, 0, 4, 0, 0, 14, 16, 1, 8, 0, 0,
    0, 0, 0, 13, 0, 0, 28, 32, 1, 17, 0, 0, 14, 16, 0, 22, 76, 77, 84, 0, 80, 77, 84, 0, 87, 69,
    83, 84, 0, 87, 69, 84, 0, 67, 69, 83, 84, 0, 67, 69, 84, 0, 10, 67, 69, 84, 45, 49, 10,
];

/// `Africa/Bissau`.
#[verifier::opaque]
pub const AFRICA_BISSAU: [u8; 149] = [
    84, 90, 105, 102, 50, 0, 0, 0, 0, 0, 0, 0, 0, 0, 0, 0, 0, 0, 0, 0, 0, 0, 0, 0, 0, 0, 0, 0, 0,
    0, 0, 0, 0, 0, 0, 0, 0, 0, 0, 1, 0, 0, 0, 1, 0, 0, 0, 0, 0, 0, 0, 84, 90, 105, 102, 50, 0, 0,
    0, 0, 0, 0, 0, 0, 0, 0, 0, 0, 0, 0, 0, 0, 0, 0, 0, 0, 0, 0, 0, 0, 0, 0, 0, 0, 0, 0, 2, 0, 0,
    0, 3, 0, 0, 0, 12, 255, 255, 255, 255, 146, 230, 156, 144, 0, 0, 0, 0, 9, 103, 97, 16, 1, 2,
    255, 255, 241, 100, 0, 0, 255, 255, 241, 240, 0, 4, 0, 0, 0, 0, 0, 8, 76, 77, 84, 0, 45, 48,
    49, 0, 71, 77, 84, 0, 10, 71, 77, 84, 48, 10,
];

/// `Africa/Cairo`.
#[verifier::opaque]
pub const AFRICA_CAIRO: [u8; 1309] = [
    84, 90, 105, 102, 50, 0, 0, 0, 0, 0, 0, 0, 0, 0, 0, 0, 0, 0, 0, 0, 0, 0, 0, 0, 0, 0, 0, 0, 0,
    0, 0, 0, 0, 0, 0, 0, 0, 0, 0, 1, 0, 0, 0, 1, 0, 0, 0, 0, 0, 0, 0, 84, 90, 105, 102, 50, 0, 0,
    0, 0, 0, 0, 0, 0, 0, 0, 0, 0, 0, 0, 0, 0, 0, 0, 0, 0, 0, 0, 0, 0, 0, 0, 0, 0, 0, 0, 128, 0, 0,
    0, 3, 0, 0, 0, 13, 255, 255, 255, 255, 125, 189, 77, 171, 255, 255, 255, 255, 200, 147, 180,
    224, 255, 255, 255, 255, 200, 250, 123, 208, 255, 255, 255, 255, 201, 252, 239, 224, 255, 255,
    255, 255, 202, 199, 232, 208, 255, 255, 255, 255, 203, 203, 174, 96, 255, 255, 255, 255, 204,
    223, 41, 208, 255, 255, 255, 255, 205, 172, 225, 224, 255, 255, 255, 255, 206, 198, 244, 208,
    255, 255, 255, 255, 207, 143, 102, 224, 255, 255, 255, 255, 208, 169, 121, 208, 255, 255, 255,
    255, 209, 132, 96, 224, 255, 255, 255, 255, 210, 138, 173, 80, 255, 255, 255, 255, 232, 54,
    99, 96, 255, 255, 255, 255, 232, 244, 45, 80, 255, 255, 255, 255, 234, 11, 185, 96, 255, 255,
    255, 255, 234, 213, 96, 208, 255, 255, 255, 255, 235, 236, 250, 240, 255, 255, 255, 255, 236,
    181, 109, 0, 255, 255, 255, 255, 237, 207, 127, 240, 255, 255, 255, 255, 238, 151, 242, 0,
    255, 255, 255, 255, 239, 176, 179, 112, 255, 255, 255, 255, 240, 121, 37, 128, 255, 255, 255,
    255, 241, 145, 230, 240, 255, 255, 255, 255, 242, 90, 89, 0, 255, 255, 255, 255, 243, 115, 26,
    112, 255, 255, 255, 255, 244, 59, 140, 128, 255, 255, 255, 255, 245, 85, 159, 112, 255, 255,
    255, 255, 246, 30, 17, 128, 255, 255, 255, 255, 247, 54, 210, 240, 255, 255, 255, 255, 247,
    255, 69, 0, 255, 255, 255, 255, 249, 24, 6, 112, 255, 255, 255, 255, 249, 225, 202, 0, 255,
    255, 255, 255, 250, 249, 57, 240, 255, 255, 255, 255, 251, 194, 253, 128, 255, 255, 255, 255,
    252, 219, 190, 240, 255, 255, 255, 255, 253, 165, 130, 128, 255, 255, 255, 255, 254, 188, 242,
    112, 255, 255, 255, 255, 255, 134, 182, 0, 0, 0, 0, 0, 0, 158, 37, 240, 0, 0, 0, 0, 1, 103,
    233, 128, 0, 0, 0, 0, 2, 127, 89, 112, 0, 0, 0, 0, 3, 73, 29, 0, 0, 0, 0, 0, 4, 97, 222, 112,
    0, 0, 0, 0, 5, 43, 162, 0, 0, 0, 0, 0, 6, 67, 17, 240, 0, 0, 0, 0, 7, 12, 213, 128, 0, 0, 0,
    0, 8, 36, 69, 112, 0, 0, 0, 0, 8, 238, 9, 0, 0, 0, 0, 0, 10, 5, 120, 240, 0, 0, 0, 0, 10, 207,
    60, 128, 0, 0, 0, 0, 11, 231, 253, 240, 0, 0, 0, 0, 12, 177, 193, 128, 0, 0, 0, 0, 13, 201,
    49, 112, 0, 0, 0, 0, 14, 146, 245, 0, 0, 0, 0, 0, 15, 170, 100, 240, 0, 0, 0, 0, 16, 116, 40,
    128, 0, 0, 0, 0, 17, 139, 152, 112, 0, 0, 0, 0, 18, 85, 92, 0, 0, 0, 0, 0, 19, 110, 29, 112,
    0, 0, 0, 0, 20, 55, 225, 0, 0, 0, 0, 0, 21, 79, 80, 240, 0, 0, 0, 0, 22, 25, 20, 128, 0, 0, 0,
    0, 23, 160, 147, 240, 0, 0, 0, 0, 23, 250, 72, 0, 0, 0, 0, 0, 25, 112, 163, 240, 0, 0, 0, 0,
    25, 219, 123, 128, 0, 0, 0, 0, 26, 244, 60, 240, 0, 0, 0, 0, 27, 190, 0, 128, 0, 0, 0, 0, 28,
    213, 112, 112, 0, 0, 0, 0, 29, 159, 52, 0, 0, 0, 0, 0, 30, 182, 163, 240, 0, 0, 0, 0, 31, 128,
    103, 128, 0, 0, 0, 0, 32, 151, 215, 112, 0, 0, 0, 0, 33, 97, 155, 0, 0, 0, 0, 0, 34, 122, 92,
    112, 0, 0, 0, 0, 35, 68, 32, 0, 0, 0, 0, 0, 36, 98, 39, 112, 0, 0, 0, 0, 37, 37, 83, 128, 0,
    0, 0, 0, 38, 60, 195, 112, 0, 0, 0, 0, 39, 6, 135, 0, 0, 0, 0, 0, 40, 29, 246, 240, 0, 0, 0,
    0, 40, 231, 186, 128, 0, 0, 0, 0, 42, 0, 123, 240, 0, 0, 0, 0, 42, 202, 63, 128, 0, 0, 0, 0,
    43, 225, 175, 112, 0, 0, 0, 0, 44, 171, 115, 0, 0, 0, 0, 0, 45, 194, 226, 240, 0, 0, 0, 0, 46,
    140, 166, 128, 0, 0, 0, 0, 47, 160, 19, 224, 0, 0, 0, 0, 48, 107, 12, 208, 0, 0, 0, 0, 49,
    127, 245, 224, 0, 0, 0, 0, 50, 74, 238, 208, 0, 0, 0, 0, 51, 95, 215, 224, 0, 0, 0, 0, 52, 42,
    208, 208, 0, 0, 0, 0, 53, 63, 185, 224, 0, 0, 0, 0, 54, 10, 178, 208, 0, 0, 0, 0, 55, 40, 214,
    96, 0, 0, 0, 0, 55, 243, 207, 80, 0, 0, 0, 0, 57, 8, 184, 96, 0, 0, 0, 0, 57, 211, 177, 80, 0,
    0, 0, 0, 58, 232, 154, 96, 0, 0, 0, 0, 59, 179, 147, 80, 0, 0, 0, 0, 60, 200, 124, 96, 0, 0,
    0, 0, 61, 147, 117, 80, 0, 0, 0, 0, 62, 168, 94, 96, 0, 0, 0, 0, 63, 115, 87, 80, 0, 0, 0, 0,
    64, 145, 122, 224, 0, 0, 0, 0, 65, 92, 115, 208, 0, 0, 0, 0, 66, 113, 92, 224, 0, 0, 0, 0, 67,
    60, 85, 208, 0, 0, 0, 0, 68, 81, 62, 224, 0, 0, 0, 0, 69, 18, 253, 80, 0, 0, 0, 0, 70, 49, 32,
    224, 0, 0, 0, 0, 70, 224, 106, 80, 0, 0, 0, 0, 72, 17, 2, 224, 0, 0, 0, 0, 72, 183, 17, 208,
    0, 0, 0, 0, 73, 240, 228, 224, 0, 0, 0, 0, 74, 141, 185, 80, 0, 0, 0, 0, 75, 218, 1, 96, 0, 0,
    0, 0, 76, 97, 189, 208, 0, 0, 0, 0, 76, 137, 88, 224, 0, 0, 0, 0, 76, 164, 250, 80, 0, 0, 0,
    0, 83, 117, 56, 224, 0, 0, 0, 0, 83, 172, 137, 208, 0, 0, 0, 0, 83, 218, 188, 96, 0, 0, 0, 0,
    84, 36, 130, 80, 0, 0, 0, 0, 100, 74, 240, 96, 2, 1, 2, 1, 2, 1, 2, 1, 2, 1, 2, 1, 2, 1, 2, 1,
    2, 1, 2, 1, 2, 1, 2, 1, 2, 1, 2, 1, 2, 1, 2, 1, 2, 1, 2, 1, 2, 1, 2, 1, 2, 1, 2, 1, 2, 1, 2,
    1, 2, 1, 2, 1, 2, 1, 2, 1, 2, 1, 2, 1, 2, 1, 2, 1, 2, 1, 2, 1, 2, 1, 2, 1, 2, 1, 2, 1, 2, 1,
    2, 1, 2, 1, 2, 1, 2, 1, 2, 1, 2, 1, 2, 1, 2, 1, 2, 1, 2, 1, 2, 1, 2, 1, 2, 1, 2, 1, 2, 1, 2,
    1, 2, 1, 2, 1, 2, 1, 2, 1, 2, 1, 2, 1, 2, 1, 2, 1, 2, 1, 0, 0, 29, 85, 0, 0, 0, 0, 42, 48, 1,
    4, 0, 0, 28, 32, 0, 9, 76, 77, 84, 0, 69, 69, 83, 84, 0, 69, 69, 84, 0, 10, 69, 69, 84, 45,
    50, 69, 69, 83, 84, 44, 77, 52, 46, 53, 46, 53, 47, 48, 44, 77, 49, 48, 46, 53, 46, 52, 47,
    50, 52, 10,
];

/// `Africa/Casablanca`.
#[verifier::opaque]
pub const AFRICA_CASABLANCA: [u8; 1919] = [
    84, 90, 105, 102, 50, 0, 0, 0, 0, 0, 0, 0, 0, 0, 0, 0, 0, 0, 0, 0, 0, 0, 0, 0, 0, 0, 0, 0, 0,
    0, 0, 0, 0, 0, 0, 0, 0, 0, 0, 1, 0, 0, 0, 1, 0, 0, 0, 0, 0, 0, 0, 84, 90, 105, 102, 50, 0, 0,
    0, 0, 0, 0, 0, 0, 0, 0, 0, 0, 0, 0, 0, 0, 0, 0, 0, 0, 0, 0, 0, 0, 0, 0, 0, 0, 0, 0, 197, 0, 0,
    0, 5, 0, 0, 0, 12, 255, 255, 255, 255, 150, 81, 249, 156, 255, 255, 255, 255, 198, 255, 20,
    128, 255, 255, 255, 255, 199, 88, 172, 112, 255, 255, 255, 255, 199, 217, 237, 128, 255, 255,
    255, 255, 210, 161, 50, 240, 255, 255, 255, 255, 219, 53, 164, 0, 255, 255, 255, 255, 219,
    238, 39, 240, 255, 255, 255, 255, 251, 37, 114, 64, 255, 255, 255, 255, 251, 194, 239, 112, 0,
    0, 0, 0, 8, 107, 132, 128, 0, 0, 0, 0, 8, 198, 109, 240, 0, 0, 0, 0, 11, 232, 12, 0, 0, 0, 0,
    0, 12, 97, 71, 240, 0, 0, 0, 0, 13, 201, 63, 128, 0, 0, 0, 0, 14, 142, 242, 112, 0, 0, 0, 0,
    15, 211, 81, 128, 0, 0, 0, 0, 16, 39, 163, 112, 0, 0, 0, 0, 26, 183, 166, 0, 0, 0, 0, 0, 30,
    24, 111, 240, 0, 0, 0, 0, 72, 65, 230, 128, 0, 0, 0, 0, 72, 187, 34, 112, 0, 0, 0, 0, 74, 35,
    26, 0, 0, 0, 0, 0, 74, 141, 213, 112, 0, 0, 0, 0, 75, 220, 192, 128, 0, 0, 0, 0, 76, 93, 229,
    112, 0, 0, 0, 0, 77, 151, 184, 128, 0, 0, 0, 0, 78, 52, 140, 240, 0, 0, 0, 0, 79, 156, 160,
    160, 0, 0, 0, 0, 80, 8, 187, 160, 0, 0, 0, 0, 80, 49, 154, 32, 0, 0, 0, 0, 80, 103, 167, 160,
    0, 0, 0, 0, 81, 124, 130, 160, 0, 0, 0, 0, 81, 216, 203, 160, 0, 0, 0, 0, 82, 5, 158, 160, 0,
    0, 0, 0, 82, 108, 115, 160, 0, 0, 0, 0, 83, 55, 122, 160, 0, 0, 0, 0, 83, 174, 33, 160, 0, 0,
    0, 0, 83, 220, 70, 32, 0, 0, 0, 0, 84, 76, 85, 160, 0, 0, 0, 0, 85, 23, 92, 160, 0, 0, 0, 0,
    85, 124, 224, 32, 0, 0, 0, 0, 85, 171, 4, 160, 0, 0, 0, 0, 86, 44, 55, 160, 0, 0, 0, 0, 86,
    247, 62, 160, 0, 0, 0, 0, 87, 83, 135, 160, 0, 0, 0, 0, 87, 129, 172, 32, 0, 0, 0, 0, 88, 21,
    84, 32, 0, 0, 0, 0, 88, 215, 32, 160, 0, 0, 0, 0, 89, 32, 244, 160, 0, 0, 0, 0, 89, 88, 83,
    160, 0, 0, 0, 0, 89, 245, 54, 32, 0, 0, 0, 0, 90, 183, 2, 160, 0, 0, 0, 0, 90, 247, 156, 32,
    0, 0, 0, 0, 91, 37, 192, 160, 0, 0, 0, 0, 91, 213, 24, 32, 0, 0, 0, 0, 92, 206, 67, 160, 0, 0,
    0, 0, 92, 252, 104, 32, 0, 0, 0, 0, 94, 155, 176, 160, 0, 0, 0, 0, 94, 211, 15, 160, 0, 0, 0,
    0, 96, 114, 88, 32, 0, 0, 0, 0, 96, 160, 124, 160, 0, 0, 0, 0, 98, 63, 197, 32, 0, 0, 0, 0,
    98, 119, 36, 32, 0, 0, 0, 0, 100, 22, 108, 160, 0, 0, 0, 0, 100, 68, 145, 32, 0, 0, 0, 0, 101,
    237, 20, 32, 0, 0, 0, 0, 102, 27, 56, 160, 0, 0, 0, 0, 103, 186, 129, 32, 0, 0, 0, 0, 103,
    241, 224, 32, 0, 0, 0, 0, 105, 145, 40, 160, 0, 0, 0, 0, 105, 191, 77, 32, 0, 0, 0, 0, 107,
    103, 208, 32, 0, 0, 0, 0, 107, 149, 244, 160, 0, 0, 0, 0, 109, 53, 61, 32, 0, 0, 0, 0, 109,
    108, 156, 32, 0, 0, 0, 0, 111, 11, 228, 160, 0, 0, 0, 0, 111, 58, 9, 32, 0, 0, 0, 0, 112, 217,
    81, 160, 0, 0, 0, 0, 113, 16, 176, 160, 0, 0, 0, 0, 114, 175, 249, 32, 0, 0, 0, 0, 114, 222,
    29, 160, 0, 0, 0, 0, 116, 134, 160, 160, 0, 0, 0, 0, 116, 180, 197, 32, 0, 0, 0, 0, 118, 84,
    13, 160, 0, 0, 0, 0, 118, 139, 108, 160, 0, 0, 0, 0, 120, 42, 181, 32, 0, 0, 0, 0, 120, 88,
    217, 160, 0, 0, 0, 0, 121, 248, 34, 32, 0, 0, 0, 0, 122, 47, 129, 32, 0, 0, 0, 0, 123, 206,
    201, 160, 0, 0, 0, 0, 124, 6, 40, 160, 0, 0, 0, 0, 125, 165, 113, 32, 0, 0, 0, 0, 125, 211,
    149, 160, 0, 0, 0, 0, 127, 114, 222, 32, 0, 0, 0, 0, 127, 170, 61, 32, 0, 0, 0, 0, 129, 73,
    133, 160, 0, 0, 0, 0, 129, 119, 170, 32, 0, 0, 0, 0, 131, 32, 45, 32, 0, 0, 0, 0, 131, 78, 81,
    160, 0, 0, 0, 0, 132, 237, 154, 32, 0, 0, 0, 0, 133, 36, 249, 32, 0, 0, 0, 0, 134, 196, 65,
    160, 0, 0, 0, 0, 134, 242, 102, 32, 0, 0, 0, 0, 136, 145, 174, 160, 0, 0, 0, 0, 136, 201, 13,
    160, 0, 0, 0, 0, 138, 104, 86, 32, 0, 0, 0, 0, 138, 159, 181, 32, 0, 0, 0, 0, 140, 62, 253,
    160, 0, 0, 0, 0, 140, 109, 34, 32, 0, 0, 0, 0, 142, 12, 106, 160, 0, 0, 0, 0, 142, 67, 201,
    160, 0, 0, 0, 0, 143, 227, 18, 32, 0, 0, 0, 0, 144, 17, 54, 160, 0, 0, 0, 0, 145, 185, 185,
    160, 0, 0, 0, 0, 145, 231, 222, 32, 0, 0, 0, 0, 147, 135, 38, 160, 0, 0, 0, 0, 147, 190, 133,
    160, 0, 0, 0, 0, 149, 93, 206, 32, 0, 0, 0, 0, 149, 139, 242, 160, 0, 0, 0, 0, 151, 43, 59,
    32, 0, 0, 0, 0, 151, 98, 154, 32, 0, 0, 0, 0, 153, 1, 226, 160, 0, 0, 0, 0, 153, 57, 65, 160,
    0, 0, 0, 0, 154, 216, 138, 32, 0, 0, 0, 0, 155, 6, 174, 160, 0, 0, 0, 0, 156, 165, 247, 32, 0,
    0, 0, 0, 156, 221, 86, 32, 0, 0, 0, 0, 158, 124, 158, 160, 0, 0, 0, 0, 158, 170, 195, 32, 0,
    0, 0, 0, 160, 83, 70, 32, 0, 0, 0, 0, 160, 129, 106, 160, 0, 0, 0, 0, 162, 32, 179, 32, 0, 0,
    0, 0, 162, 88, 18, 32, 0, 0, 0, 0, 163, 247, 90, 160, 0, 0, 0, 0, 164, 37, 127, 32, 0, 0, 0,
    0, 165, 196, 199, 160, 0, 0, 0, 0, 165, 252, 38, 160, 0, 0, 0, 0, 167, 155, 111, 32, 0, 0, 0,
    0, 167, 210, 206, 32, 0, 0, 0, 0, 169, 114, 22, 160, 0, 0, 0, 0, 169, 160, 59, 32, 0, 0, 0, 0,
    171, 63, 131, 160, 0, 0, 0, 0, 171, 118, 226, 160, 0, 0, 0, 0, 173, 22, 43, 32, 0, 0, 0, 0,
    173, 68, 79, 160, 0, 0, 0, 0, 174, 236, 210, 160, 0, 0, 0, 0, 175, 26, 247, 32, 0, 0, 0, 0,
    176, 186, 63, 160, 0, 0, 0, 0, 176, 241, 158, 160, 0, 0, 0, 0, 178, 144, 231, 32, 0, 0, 0, 0,
    178, 191, 11, 160, 0, 0, 0, 0, 180, 94, 84, 32, 0, 0, 0, 0, 180, 149, 179, 32, 0, 0, 0, 0,
    182, 52, 251, 160, 0, 0, 0, 0, 182, 108, 90, 160, 0, 0, 0, 0, 184, 11, 163, 32, 0, 0, 0, 0,
    184, 57, 199, 160, 0, 0, 0, 0, 185, 217, 16, 32, 0, 0, 0, 0, 186, 16, 111, 32, 0, 0, 0, 0,
    187, 175, 183, 160, 0, 0, 0, 0, 187, 221, 220, 32, 0, 0, 0, 0, 189, 134, 95, 32, 0, 0, 0, 0,
    189, 180, 131, 160, 0, 0, 0, 0, 191, 83, 204, 32, 0, 0, 0, 0, 191, 139, 43, 32, 0, 0, 0, 0,
    193, 42, 115, 160, 0, 0, 0, 0, 193, 88, 152, 32, 0, 0, 0, 0, 194, 247, 224, 160, 0, 0, 0, 0,
    195, 47, 63, 160, 0, 0, 0, 0, 196, 206, 136, 32, 0, 0, 0, 0, 197, 5, 231, 32, 0, 0, 0, 0, 198,
    165, 47, 160, 0, 0, 0, 0, 198, 211, 84, 32, 0, 0, 0, 0, 200, 114, 156, 160, 0, 0, 0, 0, 200,
    169, 251, 160, 0, 0, 0, 0, 202, 73, 68, 32, 0, 0, 0, 0, 202, 119, 104, 160, 0, 0, 0, 0, 204,
    31, 235, 160, 0, 0, 0, 0, 204, 78, 16, 32, 0, 0, 0, 0, 205, 237, 88, 160, 0, 0, 0, 0, 206, 36,
    183, 160, 0, 0, 0, 0, 207, 196, 0, 32, 0, 0, 0, 0, 207, 242, 36, 160, 0, 0, 0, 0, 209, 145,
    109, 32, 0, 0, 0, 0, 209, 200, 204, 32, 0, 0, 0, 0, 211, 104, 20, 160, 0, 0, 0, 0, 211, 150,
    57, 32, 0, 0, 0, 0, 213, 62, 188, 32, 0, 0, 0, 0, 213, 108, 224, 160, 0, 0, 0, 0, 215, 12, 41,
    32, 0, 0, 0, 0, 215, 67, 136, 32, 0, 0, 0, 0, 216, 226, 208, 160, 0, 0, 0, 0, 217, 16, 245,
    32, 0, 0, 0, 0, 218, 185, 120, 32, 0, 0, 0, 0, 218, 231, 156, 160, 0, 0, 0, 0, 220, 134, 229,
    32, 0, 0, 0, 0, 220, 190, 68, 32, 2, 1, 2, 1, 2, 1, 2, 1, 2, 1, 2, 1, 2, 1, 2, 1, 2, 3, 2, 1,
    2, 1, 2, 1, 2, 1, 2, 1, 2, 1, 2, 1, 2, 1, 2, 1, 2, 1, 2, 1, 2, 1, 2, 1, 2, 1, 2, 1, 2, 1, 2,
    1, 2, 1, 3, 4, 3, 4, 3, 4, 3, 4, 3, 4, 3, 4, 3, 4, 3, 4, 3, 4, 3, 4, 3, 4, 3, 4, 3, 4, 3, 4,
    3, 4, 3, 4, 3, 4, 3, 4, 3, 4, 3, 4, 3, 4, 3, 4, 3, 4, 3, 4, 3, 4, 3, 4, 3, 4, 3, 4, 3, 4, 3,
    4, 3, 4, 3, 4, 3, 4, 3, 4, 3, 4, 3, 4, 3, 4, 3, 4, 3, 4, 3, 4, 3, 4, 3, 4, 3, 4, 3, 4, 3, 4,
    3, 4, 3, 4, 3, 4, 3, 4, 3, 4, 3, 4, 3, 4, 3, 4, 3, 4, 3, 4, 3, 4, 3, 4, 3, 4, 3, 4, 3, 4, 3,
    4, 3, 4, 3, 4, 3, 4, 3, 4, 3, 4, 3, 4, 3, 4, 3, 4, 3, 4, 3, 4, 3, 255, 255, 248, 228, 0, 0, 0,
    0, 14, 16, 1, 4, 0, 0, 0, 0, 0, 8, 0, 0, 14, 16, 0, 4, 0, 0, 0, 0, 1, 8, 76, 77, 84, 0, 43,
    48, 49, 0, 43, 48, 48, 0, 10, 60, 43, 48, 49, 62, 45, 49, 10,
];

/// `Africa/Ceuta`.
#[verifier::opaque]
pub const AFRICA_CEUTA: [u8; 562] = [
    84, 90, 105, 102, 50, 0, 0, 0, 0, 0, 0, 0, 0, 0, 0, 0, 0, 0, 0, 0, 0, 0, 0, 0, 0, 0, 0, 0, 0,
    0, 0, 0, 0, 0, 0, 0, 0, 0, 0, 1, 0, 0, 0, 1, 0, 0, 0, 0, 0, 0, 0, 84, 90, 105, 102, 50, 0, 0,
    0, 0, 0, 0, 0, 0, 0, 0, 0, 0, 0, 0, 0, 0, 0, 0, 0, 0, 0, 0, 0, 0, 0, 0, 0, 0, 0, 0, 43, 0, 0,
    0, 5, 0, 0, 0, 22, 255, 255, 255, 255, 126, 54, 181, 0, 255, 255, 255, 255, 158, 214, 117,
    112, 255, 255, 255, 255, 159, 161, 110, 96, 255, 255, 255, 255, 170, 5, 239, 112, 255, 255,
    255, 255, 170, 231, 110, 0, 255, 255, 255, 255, 173, 201, 167, 240, 255, 255, 255, 255, 174,
    167, 50, 0, 255, 255, 255, 255, 175, 160, 79, 112, 255, 255, 255, 255, 176, 135, 20, 0, 255,
    255, 255, 255, 177, 137, 122, 0, 255, 255, 255, 255, 178, 112, 48, 128, 255, 255, 255, 255,
    251, 37, 114, 64, 255, 255, 255, 255, 251, 194, 239, 112, 0, 0, 0, 0, 8, 107, 132, 128, 0, 0,
    0, 0, 8, 198, 109, 240, 0, 0, 0, 0, 11, 232, 12, 0, 0, 0, 0, 0, 12, 97, 71, 240, 0, 0, 0, 0,
    13, 201, 63, 128, 0, 0, 0, 0, 14, 142, 242, 112, 0, 0, 0, 0, 15, 211, 81, 128, 0, 0, 0, 0, 16,
    39, 163, 112, 0, 0, 0, 0, 26, 183, 166, 0, 0, 0, 0, 0, 30, 140, 144, 16, 0, 0, 0, 0, 31, 124,
    129, 16, 0, 0, 0, 0, 32, 108, 114, 16, 0, 0, 0, 0, 33, 92, 99, 16, 0, 0, 0, 0, 34, 76, 84, 16,
    0, 0, 0, 0, 35, 60, 69, 16, 0, 0, 0, 0, 36, 44, 54, 16, 0, 0, 0, 0, 37, 28, 39, 16, 0, 0, 0,
    0, 38, 12, 24, 16, 0, 0, 0, 0, 39, 5, 67, 144, 0, 0, 0, 0, 39, 245, 52, 144, 0, 0, 0, 0, 40,
    229, 37, 144, 0, 0, 0, 0, 41, 213, 22, 144, 0, 0, 0, 0, 42, 197, 7, 144, 0, 0, 0, 0, 43, 180,
    248, 144, 0, 0, 0, 0, 44, 164, 233, 144, 0, 0, 0, 0, 45, 148, 218, 144, 0, 0, 0, 0, 46, 132,
    203, 144, 0, 0, 0, 0, 47, 116, 188, 144, 0, 0, 0, 0, 48, 100, 173, 144, 0, 0, 0, 0, 49, 93,
    217, 16, 1, 2, 1, 2, 1, 2, 1, 2, 1, 2, 1, 2, 1, 2, 1, 2, 1, 2, 1, 2, 1, 3, 4, 3, 4, 3, 4, 3,
    4, 3, 4, 3, 4, 3, 4, 3, 4, 3, 4, 3, 4, 3, 4, 255, 255, 251, 4, 0, 0, 0, 0, 0, 0, 0, 4, 0, 0,
    14, 16, 1, 8, 0, 0, 14, 16, 0, 13, 0, 0, 28, 32, 1, 17, 76, 77, 84, 0, 87, 69, 84, 0, 87, 69,
    83, 84, 0, 67, 69, 84, 0, 67, 69, 83, 84, 0, 10, 67, 69, 84, 45, 49, 67, 69, 83, 84, 44, 77,
    51, 46, 53, 46, 48, 44, 77, 49, 48, 46, 53, 46, 48, 47, 51, 10,
];

/// `Africa/El_Aaiun`.
#[verifier::opaque]
pub const AFRICA_EL_AAIUN: [u8; 1830] = [
    84, 90, 105, 102, 50, 0, 0, 0, 0, 0, 0, 0, 0, 0, 0, 0, 0, 0, 0, 0, 0, 0, 0, 0, 0, 0, 0, 0, 0,
    0, 0, 0, 0, 0, 0, 0, 0, 0, 0, 1, 0, 0, 0, 1, 0, 0, 0, 0, 0, 0, 0, 84, 90, 105, 102, 50, 0, 0,
    0, 0, 0, 0, 0, 0, 0, 0, 0, 0, 0, 0, 0, 0, 0, 0, 0, 0, 0, 0, 0, 0, 0, 0, 0, 0, 0, 0, 186, 0, 0,
    0, 6, 0, 0, 0, 16, 255, 255, 255, 255, 188, 72, 240, 224, 0, 0, 0, 0, 11, 209, 176, 144, 0, 0,
    0, 0, 11, 232, 12, 0, 0, 0, 0, 0, 12, 97, 71, 240, 0, 0, 0, 0, 13, 201, 63, 128, 0, 0, 0, 0,
    14, 142, 242, 112, 0, 0, 0, 0, 15, 211, 81, 128, 0, 0, 0, 0, 16, 39, 163, 112, 0, 0, 0, 0, 72,
    65, 230, 128, 0, 0, 0, 0, 72, 187, 34, 112, 0, 0, 0, 0, 74, 35, 26, 0, 0, 0, 0, 0, 74, 141,
    213, 112, 0, 0, 0, 0, 75, 220, 192, 128, 0, 0, 0, 0, 76, 93, 229, 112, 0, 0, 0, 0, 77, 151,
    184, 128, 0, 0, 0, 0, 78, 52, 140, 240, 0, 0, 0, 0, 79, 156, 160, 160, 0, 0, 0, 0, 80, 8, 187,
    160, 0, 0, 0, 0, 80, 49, 154, 32, 0, 0, 0, 0, 80, 103, 167, 160, 0, 0, 0, 0, 81, 124, 130,
    160, 0, 0, 0, 0, 81, 216, 203, 160, 0, 0, 0, 0, 82, 5, 158, 160, 0, 0, 0, 0, 82, 108, 115,
    160, 0, 0, 0, 0, 83, 55, 122, 160, 0, 0, 0, 0, 83, 174, 33, 160, 0, 0, 0, 0, 83, 220, 70, 32,
    0, 0, 0, 0, 84, 76, 85, 160, 0, 0, 0, 0, 85, 23, 92, 160, 0, 0, 0, 0, 85, 124, 224, 32, 0, 0,
    0, 0, 85, 171, 4, 160, 0, 0, 0, 0, 86, 44, 55, 160, 0, 0, 0, 0, 86, 247, 62, 160, 0, 0, 0, 0,
    87, 83, 135, 160, 0, 0, 0, 0, 87, 129, 172, 32, 0, 0, 0, 0, 88, 21, 84, 32, 0, 0, 0, 0, 88,
    215, 32, 160, 0, 0, 0, 0, 89, 32, 244, 160, 0, 0, 0, 0, 89, 88, 83, 160, 0, 0, 0, 0, 89, 245,
    54, 32, 0, 0, 0, 0, 90, 183, 2, 160, 0, 0, 0, 0, 90, 247, 156, 32, 0, 0, 0, 0, 91, 37, 192,
    160, 0, 0, 0, 0, 91, 213, 24, 32, 0, 0, 0, 0, 92, 206, 67, 160, 0, 0, 0, 0, 92, 252, 104, 32,
    0, 0, 0, 0, 94, 155, 176, 160, 0, 0, 0, 0, 94, 211, 15, 160, 0, 0, 0, 0, 96, 114, 88, 32, 0,
    0, 0, 0, 96, 160, 124, 160, 0, 0, 0, 0, 98, 63, 197, 32, 0, 0, 0, 0, 98, 119, 36, 32, 0, 0, 0,
    0, 100, 22, 108, 160, 0, 0, 0, 0, 100, 68, 145, 32, 0, 0, 0, 0, 101, 237, 20, 32, 0, 0, 0, 0,
    102, 27, 56, 160, 0, 0, 0, 0, 103, 186, 129, 32, 0, 0, 0, 0, 103, 241, 224, 32, 0, 0, 0, 0,
    105, 145, 40, 160, 0, 0, 0, 0, 105, 191, 77, 32, 0, 0, 0, 0, 107, 103, 208, 32, 0, 0, 0, 0,
    107, 149, 244, 160, 0, 0, 0, 0, 109, 53, 61, 32, 0, 0, 0, 0, 109, 108, 156, 32, 0, 0, 0, 0,
    111, 11, 228, 160, 0, 0, 0, 0, 111, 58, 9, 32, 0, 0, 0, 0, 112, 217, 81, 160, 0, 0, 0, 0, 113,
    16, 176, 160, 0, 0, 0, 0, 114, 175, 249, 32, 0, 0, 0, 0, 114, 222, 29, 160, 0, 0, 0, 0, 116,
    134, 160, 160, 0, 0, 0, 0, 116, 180, 197, 32, 0, 0, 0, 0, 118, 84, 13, 160, 0, 0, 0, 0, 118,
    139, 108, 160, 0, 0, 0, 0, 120, 42, 181, 32, 0, 0, 0, 0, 120, 88, 217, 160, 0, 0, 0, 0, 121,
    248, 34, 32, 0, 0, 0, 0, 122, 47, 129, 32, 0, 0, 0, 0, 123, 206, 201, 160, 0, 0, 0, 0, 124, 6,
    40, 160, 0, 0, 0, 0, 125, 165, 113, 32, 0, 0, 0, 0, 125, 211, 149, 160, 0, 0, 0, 0, 127, 114,
    222, 32, 0, 0, 0, 0, 127, 170, 61, 32, 0, 0, 0, 0, 129, 73, 133, 160, 0, 0, 0, 0, 129, 119,
    170, 32, 0, 0, 0, 0, 131, 32, 45, 32, 0, 0, 0, 0, 131, 78, 81, 160, 0, 0, 0, 0, 132, 237, 154,
    32, 0, 0, 0, 0, 133, 36, 249, 32, 0, 0, 0, 0, 134, 196, 65, 160, 0, 0, 0, 0, 134, 242, 102,
    32, 0, 0, 0, 0, 136, 145, 174, 160, 0, 0, 0, 0, 136, 201, 13, 160, 0, 0, 0, 0, 138, 104, 86,
    32, 0, 0, 0, 0, 138, 159, 181, 32, 0, 0, 0, 0, 140, 62, 253, 160, 0, 0, 0, 0, 140, 109, 34,
    32, 0, 0, 0, 0, 142, 12, 106, 160, 0, 0, 0, 0, 142, 67, 201, 160, 0, 0, 0, 0, 143, 227, 18,
    32, 0, 0, 0, 0, 144, 17, 54, 160, 0, 0, 0, 0, 145, 185, 185, 160, 0, 0, 0, 0, 145, 231, 222,
    32, 0, 0, 0, 0, 147, 135, 38, 160, 0, 0, 0, 0, 147, 190, 133, 160, 0, 0, 0, 0, 149, 93, 206,
    32, 0, 0, 0, 0, 149, 139, 242, 160, 0, 0, 0, 0, 151, 43, 59, 32, 0, 0, 0, 0, 151, 98, 154, 32,
    0, 0, 0, 0, 153, 1, 226, 160, 0, 0, 0, 0, 153, 57, 65, 160, 0, 0, 0, 0, 154, 216, 138, 32, 0,
    0, 0, 0, 155, 6, 174, 160, 0, 0, 0, 0, 156, 165, 247, 32, 0, 0, 0, 0, 156, 221, 86, 32, 0, 0,
    0, 0, 158, 124, 158, 160, 0, 0, 0, 0, 158, 170, 195, 32, 0, 0, 0, 0, 160, 83, 70, 32, 0, 0, 0,
    0, 160, 129, 106, 160, 0, 0, 0, 0, 162, 32, 179, 32, 0, 0, 0, 0, 162, 88, 18, 32, 0, 0, 0, 0,
    163, 247, 90, 160, 0, 0, 0, 0, 164, 37, 127, 32, 0, 0, 0, 0, 165, 196, 199, 160, 0, 0, 0, 0,
    165, 252, 38, 160, 0, 0, 0, 0, 167, 155, 111, 32, 0, 0, 0, 0, 167, 210, 206, 32, 0, 0, 0, 0,
    169, 114, 22, 160, 0, 0, 0, 0, 169, 160, 59, 32, 0, 0, 0, 0, 171, 63, 131, 160, 0, 0, 0, 0,
    171, 118, 226, 160, 0, 0, 0, 0, 173, 22, 43, 32, 0, 0, 0, 0, 173, 68, 79, 160, 0, 0, 0, 0,
    174, 236, 210, 160, 0, 0, 0, 0, 175, 26, 247, 32, 0, 0, 0, 0, 176, 186, 63, 160, 0, 0, 0, 0,
    176, 241, 158, 160, 0, 0, 0, 0, 178, 144, 231, 32, 0, 0, 0, 0, 178, 191, 11, 160, 0, 0, 0, 0,
    180, 94, 84, 32, 0, 0, 0, 0, 180, 149, 179, 32, 0, 0, 0, 0, 182, 52, 251, 160, 0, 0, 0, 0,
    182, 108, 90, 160, 0, 0, 0, 0, 184, 11, 163, 32, 0, 0, 0, 0, 184, 57, 199, 160, 0, 0, 0, 0,
    185, 217, 16, 32, 0, 0, 0, 0, 186, 16, 111, 32, 0, 0, 0, 0, 187, 175, 183, 160, 0, 0, 0, 0,
    187, 221, 220, 32, 0, 0, 0, 0, 189, 134, 95, 32, 0, 0, 0, 0, 189, 180, 131, 160, 0, 0, 0, 0,
    191, 83, 204, 32, 0, 0, 0, 0, 191, 139, 43, 32, 0, 0, 0, 0, 193, 42, 115, 160, 0, 0, 0, 0,
    193, 88, 152, 32, 0, 0, 0, 0, 194, 247, 224, 160, 0, 0, 0, 0, 195, 47, 63, 160, 0, 0, 0, 0,
    196, 206, 136, 32, 0, 0, 0, 0, 197, 5, 231, 32, 0, 0, 0, 0, 198, 165, 47, 160, 0, 0, 0, 0,
    198, 211, 84, 32, 0, 0, 0, 0, 200, 114, 156, 160, 0, 0, 0, 0, 200, 169, 251, 160, 0, 0, 0, 0,
    202, 73, 68, 32, 0, 0, 0, 0, 202, 119, 104, 160, 0, 0, 0, 0, 204, 31, 235, 160, 0, 0, 0, 0,
    204, 78, 16, 32, 0, 0, 0, 0, 205, 237, 88, 160, 0, 0, 0, 0, 206, 36, 183, 160, 0, 0, 0, 0,
    207, 196, 0, 32, 0, 0, 0, 0, 207, 242, 36, 160, 0, 0, 0, 0, 209, 145, 109, 32, 0, 0, 0, 0,
    209, 200, 204, 32, 0, 0, 0, 0, 211, 104, 20, 160, 0, 0, 0, 0, 211, 150, 57, 32, 0, 0, 0, 0,
    213, 62, 188, 32, 0, 0, 0, 0, 213, 108, 224, 160, 0, 0, 0, 0, 215, 12, 41, 32, 0, 0, 0, 0,
    215, 67, 136, 32, 0, 0, 0, 0, 216, 226, 208, 160, 0, 0, 0, 0, 217, 16, 245, 32, 0, 0, 0, 0,
    218, 185, 120, 32, 0, 0, 0, 0, 218, 231, 156, 160, 0, 0, 0, 0, 220, 134, 229, 32, 0, 0, 0, 0,
    220, 190, 68, 32, 1, 3, 2, 3, 2, 3, 2, 3, 2, 3, 2, 3, 2, 3, 2, 3, 2, 3, 2, 3, 2, 3, 2, 3, 2,
    3, 2, 3, 2, 3, 2, 3, 2, 3, 2, 3, 2, 3, 2, 3, 2, 3, 2, 5, 4, 5, 4, 5, 4, 5, 4, 5, 4, 5, 4, 5,
    4, 5, 4, 5, 4, 5, 4, 5, 4, 5, 4, 5, 4, 5, 4, 5, 4, 5, 4, 5, 4, 5, 4, 5, 4, 5, 4, 5, 4, 5, 4,
    5, 4, 5, 4, 5, 4, 5, 4, 5, 4, 5, 4, 5, 4, 5, 4, 5, 4, 5, 4, 5, 4, 5, 4, 5, 4, 5, 4, 5, 4, 5,
    4, 5, 4, 5, 4, 5, 4, 5, 4, 5, 4, 5, 4, 5, 4, 5, 4, 5, 4, 5, 4, 5, 4, 5, 4, 5, 4, 5, 4, 5, 4,
    5, 4, 5, 4, 5, 4, 5, 4, 5, 4, 5, 4, 5, 4, 5, 4, 5, 4, 5, 4, 5, 4, 5, 4, 5, 4, 5, 4, 5, 4, 5,
    4, 5, 4, 5, 4, 5, 255, 255, 243, 160, 0, 0, 255, 255, 241, 240, 0, 4, 0, 0, 14, 16, 1, 8, 0,
    0, 0, 0, 0, 12, 0, 0, 0, 0, 1, 12, 0, 0, 14, 16, 0, 8, 76, 77, 84, 0, 45, 48, 49, 0, 43, 48,
    49, 0, 43, 48, 48, 0, 10, 60, 43, 48, 49, 62, 45, 49, 10,
];

/// `Africa/Johannesburg`.
#[verifier::opaque]
pub const AFRICA_JOHANNESBURG: [u8; 190] = [
    84, 90, 105, 102, 50, 0, 0, 0, 0, 0, 0, 0, 0, 0, 0, 0, 0, 0, 0, 0, 0, 0, 0, 0, 0, 0, 0, 0, 0,
    0, 0, 0, 0, 0, 0, 0, 0, 0, 0, 1, 0, 0, 0, 1, 0, 0, 0, 0, 0, 0, 0, 84, 90, 105, 102, 50, 0, 0,
    0, 0, 0, 0, 0, 0, 0, 0, 0, 0, 0, 0, 0, 0, 0, 0, 0, 0, 0, 0, 0, 0, 0, 0, 0, 0, 0, 0, 6, 0, 0,
    0, 4, 0, 0, 0, 9, 255, 255, 255, 255, 109, 123, 65, 64, 255, 255, 255, 255, 130, 70, 207, 104,
    255, 255, 255, 255, 204, 174, 140, 128, 255, 255, 255, 255, 205, 158, 111, 112, 255, 255, 255,
    255, 206, 142, 110, 128, 255, 255, 255, 255, 207, 126, 81, 112, 1, 3, 2, 3, 2, 3, 0, 0, 26,
    64, 0, 0, 0, 0, 21, 24, 0, 4, 0, 0, 42, 48, 1, 4, 0, 0, 28, 32, 0, 4, 76, 77, 84, 0, 83, 65,
    83, 84, 0, 10, 83, 65, 83, 84, 45, 50, 10,
];

/// `Africa/Juba`.
#[verifier::opaque]
pub const AFRICA_JUBA: [u8; 458] = [
    84, 90, 105, 102, 50, 0, 0, 0, 0, 0, 0, 0, 0, 0, 0, 0, 0, 0, 0, 0, 0, 0, 0, 0, 0, 0, 0, 0, 0,
    0, 0, 0, 0, 0, 0, 0, 0, 0, 0, 1, 0, 0, 0, 1, 0, 0, 0, 0, 0, 0, 0, 84, 90, 105, 102, 50, 0, 0,
    0, 0, 0, 0, 0, 0, 0, 0, 0, 0, 0, 0, 0, 0, 0, 0, 0, 0, 0, 0, 0, 0, 0, 0, 0, 0, 0, 0, 35, 0, 0,
    0, 4, 0, 0, 0, 17, 255, 255, 255, 255, 182, 163, 218, 220, 0, 0, 0, 0, 0, 158, 23, 224, 0, 0,
    0, 0, 1, 122, 52, 80, 0, 0, 0, 0, 2, 125, 249, 224, 0, 0, 0, 0, 3, 91, 103, 208, 0, 0, 0, 0,
    4, 96, 126, 224, 0, 0, 0, 0, 5, 61, 236, 208, 0, 0, 0, 0, 6, 64, 96, 224, 0, 0, 0, 0, 7, 31,
    32, 80, 0, 0, 0, 0, 8, 32, 66, 224, 0, 0, 0, 0, 9, 0, 83, 208, 0, 0, 0, 0, 10, 0, 36, 224, 0,
    0, 0, 0, 10, 225, 135, 80, 0, 0, 0, 0, 11, 224, 6, 224, 0, 0, 0, 0, 12, 196, 12, 80, 0, 0, 0,
    0, 13, 191, 232, 224, 0, 0, 0, 0, 14, 165, 63, 208, 0, 0, 0, 0, 15, 169, 5, 96, 0, 0, 0, 0,
    16, 134, 115, 80, 0, 0, 0, 0, 17, 136, 231, 96, 0, 0, 0, 0, 18, 103, 166, 208, 0, 0, 0, 0, 19,
    104, 201, 96, 0, 0, 0, 0, 20, 74, 43, 208, 0, 0, 0, 0, 21, 72, 171, 96, 0, 0, 0, 0, 22, 43,
    95, 80, 0, 0, 0, 0, 23, 40, 141, 96, 0, 0, 0, 0, 24, 12, 146, 208, 0, 0, 0, 0, 25, 8, 111, 96,
    0, 0, 0, 0, 25, 237, 198, 80, 0, 0, 0, 0, 26, 241, 139, 224, 0, 0, 0, 0, 27, 208, 75, 80, 0,
    0, 0, 0, 28, 209, 109, 224, 0, 0, 0, 0, 29, 177, 126, 208, 0, 0, 0, 0, 56, 128, 69, 32, 0, 0,
    0, 0, 96, 23, 26, 80, 2, 1, 2, 1, 2, 1, 2, 1, 2, 1, 2, 1, 2, 1, 2, 1, 2, 1, 2, 1, 2, 1, 2, 1,
    2, 1, 2, 1, 2, 1, 2, 1, 2, 3, 2, 0, 0, 29, 164, 0, 0, 0, 0, 42, 48, 1, 4, 0, 0, 28, 32, 0, 9,
    0, 0, 42, 48, 0, 13, 76, 77, 84, 0, 67, 65, 83, 84, 0, 67, 65, 84, 0, 69, 65, 84, 0, 10, 67,
    65, 84, 45, 50, 10,
];

/// `Africa/Khartoum`.
#[verifier::opaque]
pub const AFRICA_KHARTOUM: [u8; 458] = [
    84, 90, 105, 102, 50, 0, 0, 0, 0, 0, 0, 0, 0, 0, 0, 0, 0, 0, 0, 0, 0, 0, 0, 0, 0, 0, 0, 0, 0,
    0, 0, 0, 0, 0, 0, 0, 0, 0, 0, 1, 0, 0, 0, 1, 0, 0, 0, 0, 0, 0, 0, 84, 90, 105, 102, 50, 0, 0,
    0, 0, 0, 0, 0, 0, 0, 0, 0, 0, 0, 0, 0, 0, 0, 0, 0, 0, 0, 0, 0, 0, 0, 0, 0, 0, 0, 0, 35, 0, 0,
    0, 4, 0, 0, 0, 17, 255, 255, 255, 255, 182, 163, 218, 0, 0, 0, 0, 0, 0, 158, 23, 224, 0, 0, 0,
    0, 1, 122, 52, 80, 0, 0, 0, 0, 2, 125, 249, 224, 0, 0, 0, 0, 3, 91, 103, 208, 0, 0, 0, 0, 4,
    96, 126, 224, 0, 0, 0, 0, 5, 61, 236, 208, 0, 0, 0, 0, 6, 64, 96, 224, 0, 0, 0, 0, 7, 31, 32,
    80, 0, 0, 0, 0, 8, 32, 66, 224, 0, 0, 0, 0, 9, 0, 83, 208, 0, 0, 0, 0, 10, 0, 36, 224, 0, 0,
    0, 0, 10, 225, 135, 80, 0, 0, 0, 0, 11, 224, 6, 224, 0, 0, 0, 0, 12, 196, 12, 80, 0, 0, 0, 0,
    13, 191, 232, 224, 0, 0, 0, 0, 14, 165, 63, 208, 0, 0, 0, 0, 15, 169, 5, 96, 0, 0, 0, 0, 16,
    134, 115, 80, 0, 0, 0, 0, 17, 136, 231, 96, 0, 0, 0, 0, 18, 103, 166, 208, 0, 0, 0, 0, 19,
    104, 201, 96, 0, 0, 0, 0, 20, 74, 43, 208, 0, 0, 0, 0, 21, 72, 171, 96, 0, 0, 0, 0, 22, 43,
    95, 80, 0, 0, 0, 0, 23, 40, 141, 96, 0, 0, 0, 0, 24, 12, 146, 208, 0, 0, 0, 0, 25, 8, 111, 96,
    0, 0, 0, 0, 25, 237, 198, 80, 0, 0, 0, 0, 26, 241, 139, 224, 0, 0, 0, 0, 27, 208, 75, 80, 0,
    0, 0, 0, 28, 209, 109, 224, 0, 0, 0, 0, 29, 177, 126, 208, 0, 0, 0, 0, 56, 128, 69, 32, 0, 0,
    0, 0, 89, 248, 228, 80, 2, 1, 2, 1, 2, 1, 2, 1, 2, 1, 2, 1, 2, 1, 2, 1, 2, 1, 2, 1, 2, 1, 2,
    1, 2, 1, 2, 1, 2, 1, 2, 1, 2, 3, 2, 0, 0, 30, 128, 0, 0, 0, 0, 42, 48, 1, 4, 0, 0, 28, 32, 0,
    9, 0, 0, 42, 48, 0, 13, 76, 77, 84, 0, 67, 65, 83, 84, 0, 67, 65, 84, 0, 69, 65, 84, 0, 10,
    67, 65, 84, 45, 50, 10,
];

/// `Africa/Lagos`.
#[verifier::opaque]
pub const AFRICA_LAGOS: [u8; 180] = [
    84, 90, 105, 102, 50, 0, 0, 0, 0, 0, 0, 0, 0, 0, 0, 0, 0, 0, 0, 0, 0, 0, 0, 0, 0, 0, 0, 0, 0,
    0, 0, 0, 0, 0, 0, 0, 0, 0, 0, 1, 0, 0, 0, 1, 0, 0, 0, 0, 0, 0, 0, 84, 90, 105, 102, 50, 0, 0,
    0, 0, 0, 0, 0, 0, 0, 0, 0, 0, 0, 0, 0, 0, 0, 0, 0, 0, 0, 0, 0, 0, 0, 0, 0, 0, 0, 0, 4, 0, 0,
    0, 4, 0, 0, 0, 18, 255, 255, 255, 255, 134, 171, 112, 209, 255, 255, 255, 255, 140, 80, 96, 0,
    255, 255, 255, 255, 150, 170, 67, 209, 255, 255, 255, 255, 161, 81, 239, 120, 1, 0, 2, 3, 0,
    0, 3, 47, 0, 0, 0, 0, 0, 0, 0, 4, 0, 0, 7, 8, 0, 8, 0, 0, 14, 16, 0, 14, 76, 77, 84, 0, 71,
    77, 84, 0, 43, 48, 48, 51, 48, 0, 87, 65, 84, 0, 10, 87, 65, 84, 45, 49, 10,
];

/// `Africa/Maputo`.
#[verifier::opaque]
pub const AFRICA_MAPUTO: [u8; 131] = [
    84, 90, 105, 102, 50, 0, 0, 0, 0, 0, 0, 0, 0, 0, 0, 0, 0, 0, 0, 0, 0, 0, 0, 0, 0, 0, 0, 0, 0,
    0, 0, 0, 0, 0, 0, 0, 0, 0, 0, 1, 0, 0, 0, 1, 0, 0, 0, 0, 0, 0, 0, 84, 90, 105, 102, 50, 0, 0,
    0, 0, 0, 0, 0, 0, 0, 0, 0, 0, 0, 0, 0, 0, 0, 0, 0, 0, 0, 0, 0, 0, 0, 0, 0, 0, 0, 0, 1, 0, 0,
    0, 2, 0, 0, 0, 8, 255, 255, 255, 255, 141, 66, 213, 118, 1, 0, 0, 30, 138, 0, 0, 0, 0, 28, 32,
    0, 4, 76, 77, 84, 0, 67, 65, 84, 0, 10, 67, 65, 84, 45, 50, 10,
];

/// `Africa/Monrovia`.
#[verifier::opaque]
pub const AFRICA_MONROVIA: [u8; 164] = [
    84, 90, 105, 102, 50, 0, 0, 0, 0, 0, 0, 0, 0, 0, 0, 0, 0, 0, 0, 0, 0, 0, 0, 0, 0, 0, 0, 0, 0,
    0, 0, 0, 0, 0, 0, 0, 0, 0, 0, 1, 0, 0, 0, 1, 0, 0, 0, 0, 0, 0, 0, 84, 90, 105, 102, 50, 0, 0,
    0, 0, 0, 0, 0, 0, 0, 0, 0, 0, 0, 0, 0, 0, 0, 0, 0, 0, 0, 0, 0, 0, 0, 0, 0, 0, 0, 0, 3, 0, 0,
    0, 4, 0, 0, 0, 12, 255, 255, 255, 255, 90, 122, 166, 156, 255, 255, 255, 255, 160, 95, 108,
    156, 0, 0, 0, 0, 3, 202, 90, 110, 1, 2, 3, 255, 255, 245, 228, 0, 0, 255, 255, 245, 228, 0, 4,
    255, 255, 245, 146, 0, 4, 0, 0, 0, 0, 0, 8, 76, 77, 84, 0, 77, 77, 84, 0, 71, 77, 84, 0, 10,
    71, 77, 84, 48, 10,
];

/// `Africa/Nairobi`.
#[verifier::opaque]
pub const AFRICA_NAIROBI: [u8; 191] = [
    84, 90, 105, 102, 50, 0, 0, 0, 0, 0, 0, 0, 0, 0, 0, 0, 0, 0, 0, 0, 0, 0, 0, 0, 0, 0, 0, 0, 0,
    0, 0, 0, 0, 0, 0, 0, 0, 0, 0, 1, 0, 0, 0, 1, 0, 0, 0, 0, 0, 0, 0, 84, 90, 105, 102, 50, 0, 0,
    0, 0, 0, 0, 0, 0, 0, 0, 0, 0, 0, 0, 0, 0, 0, 0, 0, 0, 0, 0, 0, 0, 0, 0, 0, 0, 0, 0, 5, 0, 0,
    0, 4, 0, 0, 0, 20, 255, 255, 255, 255, 139, 255, 209, 252, 255, 255, 255, 255, 177, 238, 218,
    88, 255, 255, 255, 255, 180, 199, 224, 208, 255, 255, 255, 255, 193, 237, 173, 88, 255, 255,
    255, 255, 204, 108, 122, 212, 1, 2, 1, 3, 2, 0, 0, 34, 132, 0, 0, 0, 0, 35, 40, 0, 4, 0, 0,
    42, 48, 0, 10, 0, 0, 38, 172, 0, 14, 76, 77, 84, 0, 43, 48, 50, 51, 48, 0, 69, 65, 84, 0, 43,
    48, 50, 52, 53, 0, 10, 69, 65, 84, 45, 51, 10,
];

/// `Africa/Ndjamena`.
#[verifier::opaque]
pub const AFRICA_NDJAMENA: [u8; 160] = [
    84, 90, 105, 102, 50, 0, 0, 0, 0, 0, 0, 0, 0, 0, 0, 0, 0, 0, 0, 0, 0, 0, 0, 0, 0, 0, 0, 0, 0,
    0, 0, 0, 0, 0, 0, 0, 0, 0, 0, 1, 0, 0, 0, 1, 0, 0, 0, 0, 0, 0, 0, 84, 90, 105, 102, 50, 0, 0,
    0, 0, 0, 0, 0, 0, 0, 0, 0, 0, 0, 0, 0, 0, 0, 0, 0, 0, 0, 0, 0, 0, 0, 0, 0, 0, 0, 0, 3, 0, 0,
    0, 3, 0, 0, 0, 13, 255, 255, 255, 255, 146, 230, 128, 100, 0, 0, 0, 0, 18, 102, 113, 112, 0,
    0, 0, 0, 19, 38, 222, 96, 1, 2, 1, 0, 0, 14, 28, 0, 0, 0, 0, 14, 16, 0, 4, 0, 0, 28, 32, 1, 8,
    76, 77, 84, 0, 87, 65, 84, 0, 87, 65, 83, 84, 0, 10, 87, 65, 84, 45, 49, 10,
];

/// `Africa/Sao_Tome`.
#[verifier::opaque]
pub const AFRICA_SAO_TOME: [u8; 173] = [
    84, 90, 105, 102, 50, 0, 0, 0, 0, 0, 0, 0, 0, 0, 0, 0, 0, 0, 0, 0, 0, 0, 0, 0, 0, 0, 0, 0, 0,
    0, 0, 0, 0, 0, 0, 0, 0, 0, 0, 1, 0, 0, 0, 1, 0, 0, 0, 0, 0, 0, 0, 84, 90, 105, 102, 50, 0, 0,
    0, 0, 0, 0, 0, 0, 0, 0, 0, 0, 0, 0, 0, 0, 0, 0, 0, 0, 0, 0, 0, 0, 0, 0, 0, 0, 0, 0, 4, 0, 0,
    0, 4, 0, 0, 0, 12, 255, 255, 255, 255, 94, 60, 253, 48, 255, 255, 255, 255, 146, 230, 142,
    128, 0, 0, 0, 0, 90, 73, 136, 16, 0, 0, 0, 0, 92, 42, 187, 144, 1, 2, 3, 2, 0, 0, 6, 80, 0, 0,
    255, 255, 247, 99, 0, 0, 0, 0, 0, 0, 0, 4, 0, 0, 14, 16, 0, 8, 76, 77, 84, 0, 71, 77, 84, 0,
    87, 65, 84, 0, 10, 71, 77, 84, 48, 10,
];

/// `Africa/Tripoli`.
#[verifier::opaque]
pub const AFRICA_TRIPOLI: [u8; 431] = [
    84, 90, 105, 102, 50, 0, 0, 0, 0, 0, 0, 0, 0, 0, 0, 0, 0, 0, 0, 0, 0, 0, 0, 0, 0, 0, 0, 0, 0,
    0, 0, 0, 0, 0, 0, 0, 0, 0, 0, 1, 0, 0, 0, 1, 0, 0, 0, 0, 0, 0, 0, 84, 90, 105, 102, 50, 0, 0,
    0, 0, 0, 0, 0, 0, 0, 0, 0, 0, 0, 0, 0, 0, 0, 0, 0, 0, 0, 0, 0, 0, 0, 0, 0, 0, 0, 0, 32, 0, 0,
    0, 4, 0, 0, 0, 17, 255, 255, 255, 255, 161, 242, 193, 36, 255, 255, 255, 255, 221, 187, 177,
    16, 255, 255, 255, 255, 222, 35, 173, 96, 255, 255, 255, 255, 225, 120, 210, 16, 255, 255,
    255, 255, 225, 231, 101, 224, 255, 255, 255, 255, 229, 47, 63, 112, 255, 255, 255, 255, 229,
    169, 204, 224, 255, 255, 255, 255, 235, 78, 198, 240, 0, 0, 0, 0, 22, 146, 66, 96, 0, 0, 0, 0,
    23, 8, 247, 112, 0, 0, 0, 0, 23, 250, 43, 224, 0, 0, 0, 0, 24, 234, 42, 240, 0, 0, 0, 0, 25,
    219, 95, 96, 0, 0, 0, 0, 26, 204, 175, 240, 0, 0, 0, 0, 27, 189, 228, 96, 0, 0, 0, 0, 28, 180,
    122, 240, 0, 0, 0, 0, 29, 159, 23, 224, 0, 0, 0, 0, 30, 147, 11, 112, 0, 0, 0, 0, 31, 130,
    238, 96, 0, 0, 0, 0, 32, 112, 74, 112, 0, 0, 0, 0, 33, 97, 126, 224, 0, 0, 0, 0, 34, 82, 207,
    112, 0, 0, 0, 0, 35, 68, 3, 224, 0, 0, 0, 0, 36, 52, 2, 240, 0, 0, 0, 0, 37, 37, 55, 96, 0, 0,
    0, 0, 38, 64, 183, 240, 0, 0, 0, 0, 50, 78, 241, 96, 0, 0, 0, 0, 51, 68, 54, 112, 0, 0, 0, 0,
    52, 53, 106, 224, 0, 0, 0, 0, 80, 157, 153, 0, 0, 0, 0, 0, 81, 84, 217, 128, 0, 0, 0, 0, 82,
    105, 180, 128, 2, 1, 2, 1, 2, 1, 2, 3, 2, 1, 2, 1, 2, 1, 2, 1, 2, 1, 2, 1, 2, 1, 2, 1, 2, 3,
    2, 1, 3, 2, 1, 3, 0, 0, 12, 92, 0, 0, 0, 0, 28, 32, 1, 4, 0, 0, 14, 16, 0, 9, 0, 0, 28, 32, 0,
    13, 76, 77, 84, 0, 67, 69, 83, 84, 0, 67, 69, 84, 0, 69, 69, 84, 0, 10, 69, 69, 84, 45, 50,
    10,
];

/// `Africa/Tunis`.
#[verifier::opaque]
pub const AFRICA_TUNIS: [u8; 449] = [
    84, 90, 105, 102, 50, 0, 0, 0, 0, 0, 0, 0, 0, 0, 0, 0, 0, 0, 0, 0, 0, 0, 0, 0, 0, 0, 0, 0, 0,
    0, 0, 0, 0, 0, 0, 0, 0, 0, 0, 1, 0, 0, 0, 1, 0, 0, 0, 0, 0, 0, 0, 84, 90, 105, 102, 50, 0, 0,
    0, 0, 0, 0, 0, 0, 0, 0, 0, 0, 0, 0, 0, 0, 0, 0, 0, 0, 0, 0, 0, 0, 0, 0, 0, 0, 0, 0, 34, 0, 0,
    0, 4, 0, 0, 0, 17, 255, 255, 255, 255, 89, 70, 19, 244, 255, 255, 255, 255, 145, 96, 80, 79,
    255, 255, 255, 255, 198, 58, 136, 224, 255, 255, 255, 255, 199, 88, 158, 96, 255, 255, 255,
    255, 199, 219, 34, 224, 255, 255, 255, 255, 202, 226, 84, 224, 255, 255, 255, 255, 203, 173,
    105, 240, 255, 255, 255, 255, 204, 231, 75, 16, 255, 255, 255, 255, 205, 169, 23, 144, 255,
    255, 255, 255, 205, 194, 22, 0, 255, 255, 255, 255, 205, 204, 176, 16, 255, 255, 255, 255,
    206, 162, 53, 0, 255, 255, 255, 255, 207, 146, 52, 16, 255, 255, 255, 255, 208, 137, 227, 224,
    255, 255, 255, 255, 209, 114, 22, 16, 255, 255, 255, 255, 210, 78, 22, 96, 0, 0, 0, 0, 13,
    199, 223, 240, 0, 0, 0, 0, 14, 137, 172, 112, 0, 0, 0, 0, 15, 170, 100, 240, 0, 0, 0, 0, 16,
    116, 26, 112, 0, 0, 0, 0, 34, 163, 58, 240, 0, 0, 0, 0, 35, 60, 40, 240, 0, 0, 0, 0, 36, 44,
    25, 240, 0, 0, 0, 0, 37, 28, 10, 240, 0, 0, 0, 0, 38, 60, 195, 112, 0, 0, 0, 0, 39, 5, 39,
    112, 0, 0, 0, 0, 66, 116, 13, 240, 0, 0, 0, 0, 67, 60, 128, 0, 0, 0, 0, 0, 68, 37, 231, 144,
    0, 0, 0, 0, 69, 67, 253, 16, 0, 0, 0, 0, 70, 5, 201, 144, 0, 0, 0, 0, 71, 35, 223, 16, 0, 0,
    0, 0, 71, 238, 230, 16, 0, 0, 0, 0, 73, 3, 193, 16, 1, 3, 2, 3, 2, 3, 2, 3, 2, 3, 2, 3, 2, 3,
    2, 3, 2, 3, 2, 3, 2, 3, 2, 3, 2, 3, 2, 3, 2, 3, 2, 3, 2, 3, 0, 0, 9, 140, 0, 0, 0, 0, 2, 49,
    0, 4, 0, 0, 28, 32, 1, 8, 0, 0, 14, 16, 0, 13, 76, 77, 84, 0, 80, 77, 84, 0, 67, 69, 83, 84,
    0, 67, 69, 84, 0, 10, 67, 69, 84, 45, 49, 10,
];

/// `Africa/Windhoek`.
#[verifier::opaque]
pub const AFRICA_WINDHOEK: [u8; 638] = [
    84, 90, 105, 102, 50, 0, 0, 0, 0, 0, 0, 0, 0, 0, 0, 0, 0, 0, 0, 0, 0, 0, 0, 0, 0, 0, 0, 0, 0,
    0, 0, 0, 0, 0, 0, 0, 0, 0, 0, 1, 0, 0, 0, 1, 0, 0, 0, 0, 0, 0, 0, 84, 90, 105, 102, 50, 0, 0,
    0, 0, 0, 0, 0, 0, 0, 0, 0, 0, 0, 0, 0, 0, 0, 0, 0, 0, 0, 0, 0, 0, 0, 0, 0, 0, 0, 0, 53, 0, 0,
    0, 6, 0, 0, 0, 23, 255, 255, 255, 255, 109, 123, 75, 120, 255, 255, 255, 255, 130, 70, 207,
    104, 255, 255, 255, 255, 204, 174, 140, 128, 255, 255, 255, 255, 205, 158, 111, 112, 0, 0, 0,
    0, 38, 6, 167, 224, 0, 0, 0, 0, 45, 140, 199, 96, 0, 0, 0, 0, 46, 105, 28, 16, 0, 0, 0, 0, 47,
    125, 233, 0, 0, 0, 0, 0, 48, 72, 254, 16, 0, 0, 0, 0, 49, 103, 5, 128, 0, 0, 0, 0, 50, 40,
    224, 16, 0, 0, 0, 0, 51, 70, 231, 128, 0, 0, 0, 0, 52, 17, 252, 144, 0, 0, 0, 0, 53, 38, 201,
    128, 0, 0, 0, 0, 53, 241, 222, 144, 0, 0, 0, 0, 55, 6, 171, 128, 0, 0, 0, 0, 55, 209, 192,
    144, 0, 0, 0, 0, 56, 230, 141, 128, 0, 0, 0, 0, 57, 177, 162, 144, 0, 0, 0, 0, 58, 198, 111,
    128, 0, 0, 0, 0, 59, 145, 132, 144, 0, 0, 0, 0, 60, 175, 140, 0, 0, 0, 0, 0, 61, 113, 102,
    144, 0, 0, 0, 0, 62, 143, 110, 0, 0, 0, 0, 0, 63, 90, 131, 16, 0, 0, 0, 0, 64, 111, 80, 0, 0,
    0, 0, 0, 65, 58, 101, 16, 0, 0, 0, 0, 66, 79, 50, 0, 0, 0, 0, 0, 67, 26, 71, 16, 0, 0, 0, 0,
    68, 47, 20, 0, 0, 0, 0, 0, 68, 250, 41, 16, 0, 0, 0, 0, 70, 14, 246, 0, 0, 0, 0, 0, 70, 218,
    11, 16, 0, 0, 0, 0, 71, 248, 18, 128, 0, 0, 0, 0, 72, 195, 39, 144, 0, 0, 0, 0, 73, 215, 244,
    128, 0, 0, 0, 0, 74, 163, 9, 144, 0, 0, 0, 0, 75, 183, 214, 128, 0, 0, 0, 0, 76, 130, 235,
    144, 0, 0, 0, 0, 77, 151, 184, 128, 0, 0, 0, 0, 78, 98, 205, 144, 0, 0, 0, 0, 79, 119, 154,
    128, 0, 0, 0, 0, 80, 66, 175, 144, 0, 0, 0, 0, 81, 96, 183, 0, 0, 0, 0, 0, 82, 34, 145, 144,
    0, 0, 0, 0, 83, 64, 153, 0, 0, 0, 0, 0, 84, 11, 174, 16, 0, 0, 0, 0, 85, 32, 123, 0, 0, 0, 0,
    0, 85, 235, 144, 16, 0, 0, 0, 0, 87, 0, 93, 0, 0, 0, 0, 0, 87, 203, 114, 16, 0, 0, 0, 0, 88,
    224, 63, 0, 0, 0, 0, 0, 89, 171, 84, 16, 1, 2, 3, 2, 5, 4, 5, 4, 5, 4, 5, 4, 5, 4, 5, 4, 5, 4,
    5, 4, 5, 4, 5, 4, 5, 4, 5, 4, 5, 4, 5, 4, 5, 4, 5, 4, 5, 4, 5, 4, 5, 4, 5, 4, 5, 4, 5, 4, 5,
    4, 5, 4, 5, 0, 0, 16, 8, 0, 0, 0, 0, 21, 24, 0, 4, 0, 0, 28, 32, 0, 10, 0, 0, 42, 48, 1, 10,
    0, 0, 14, 16, 1, 15, 0, 0, 28, 32, 0, 19, 76, 77, 84, 0, 43, 48, 49, 51, 48, 0, 83, 65, 83,
    84, 0, 87, 65, 84, 0, 67, 65, 84, 0, 10, 67, 65, 84, 45, 50, 10,
];

/// `America/Adak`.
#[verifier::opaque]
pub const AMERICA_ADAK: [u8; 969] = [
    84, 90, 105, 102, 50, 0, 0, 0, 0, 0, 0, 0, 0, 0, 0, 0, 0, 0, 0, 0, 0, 0, 0, 0, 0, 0, 0, 0, 0,
    0, 0, 0, 0, 0, 0, 0, 0, 0, 0, 1, 0, 0, 0, 1, 0, 0, 0, 0, 0, 0, 0, 84, 90, 105, 102, 50, 0, 0,
    0, 0, 0, 0, 0, 0, 0, 0, 0, 0, 0, 0, 0, 0, 0, 0, 0, 0, 0, 0, 0, 0, 0, 0, 0, 0, 0, 0, 84, 0, 0,
    0, 10, 0, 0, 0, 33, 255, 255, 255, 255, 63, 194, 253, 209, 255, 255, 255, 255, 125, 135, 90,
    94, 255, 255, 255, 255, 203, 137, 68, 208, 255, 255, 255, 255, 210, 35, 244, 112, 255, 255,
    255, 255, 210, 97, 80, 64, 255, 255, 255, 255, 250, 210, 85, 176, 255, 255, 255, 255, 254,
    184, 113, 80, 255, 255, 255, 255, 255, 168, 84, 64, 0, 0, 0, 0, 0, 152, 83, 80, 0, 0, 0, 0, 1,
    136, 54, 64, 0, 0, 0, 0, 2, 120, 53, 80, 0, 0, 0, 0, 3, 113, 82, 192, 0, 0, 0, 0, 4, 97, 81,
    208, 0, 0, 0, 0, 5, 81, 52, 192, 0, 0, 0, 0, 6, 65, 51, 208, 0, 0, 0, 0, 7, 49, 22, 192, 0, 0,
    0, 0, 7, 141, 109, 208, 0, 0, 0, 0, 9, 16, 248, 192, 0, 0, 0, 0, 9, 173, 233, 80, 0, 0, 0, 0,
    10, 240, 218, 192, 0, 0, 0, 0, 11, 224, 217, 208, 0, 0, 0, 0, 12, 217, 247, 64, 0, 0, 0, 0,
    13, 192, 187, 208, 0, 0, 0, 0, 14, 185, 217, 64, 0, 0, 0, 0, 15, 169, 216, 80, 0, 0, 0, 0, 16,
    153, 187, 64, 0, 0, 0, 0, 17, 137, 186, 80, 0, 0, 0, 0, 18, 121, 157, 64, 0, 0, 0, 0, 19, 105,
    156, 80, 0, 0, 0, 0, 20, 89, 127, 64, 0, 0, 0, 0, 21, 73, 126, 80, 0, 0, 0, 0, 22, 57, 97, 64,
    0, 0, 0, 0, 23, 41, 96, 80, 0, 0, 0, 0, 24, 34, 125, 192, 0, 0, 0, 0, 25, 9, 66, 80, 0, 0, 0,
    0, 26, 2, 95, 192, 0, 0, 0, 0, 26, 43, 34, 32, 0, 0, 0, 0, 26, 242, 80, 192, 0, 0, 0, 0, 27,
    226, 51, 176, 0, 0, 0, 0, 28, 210, 50, 192, 0, 0, 0, 0, 29, 194, 21, 176, 0, 0, 0, 0, 30, 178,
    20, 192, 0, 0, 0, 0, 31, 161, 247, 176, 0, 0, 0, 0, 32, 118, 71, 64, 0, 0, 0, 0, 33, 129, 217,
    176, 0, 0, 0, 0, 34, 86, 41, 64, 0, 0, 0, 0, 35, 106, 246, 48, 0, 0, 0, 0, 36, 54, 11, 64, 0,
    0, 0, 0, 37, 74, 216, 48, 0, 0, 0, 0, 38, 21, 237, 64, 0, 0, 0, 0, 39, 42, 186, 48, 0, 0, 0,
    0, 39, 255, 9, 192, 0, 0, 0, 0, 41, 10, 156, 48, 0, 0, 0, 0, 41, 222, 235, 192, 0, 0, 0, 0,
    42, 234, 126, 48, 0, 0, 0, 0, 43, 190, 205, 192, 0, 0, 0, 0, 44, 211, 154, 176, 0, 0, 0, 0,
    45, 158, 175, 192, 0, 0, 0, 0, 46, 179, 124, 176, 0, 0, 0, 0, 47, 126, 145, 192, 0, 0, 0, 0,
    48, 147, 94, 176, 0, 0, 0, 0, 49, 103, 174, 64, 0, 0, 0, 0, 50, 115, 64, 176, 0, 0, 0, 0, 51,
    71, 144, 64, 0, 0, 0, 0, 52, 83, 34, 176, 0, 0, 0, 0, 53, 39, 114, 64, 0, 0, 0, 0, 54, 51, 4,
    176, 0, 0, 0, 0, 55, 7, 84, 64, 0, 0, 0, 0, 56, 28, 33, 48, 0, 0, 0, 0, 56, 231, 54, 64, 0, 0,
    0, 0, 57, 252, 3, 48, 0, 0, 0, 0, 58, 199, 24, 64, 0, 0, 0, 0, 59, 219, 229, 48, 0, 0, 0, 0,
    60, 176, 52, 192, 0, 0, 0, 0, 61, 187, 199, 48, 0, 0, 0, 0, 62, 144, 22, 192, 0, 0, 0, 0, 63,
    155, 169, 48, 0, 0, 0, 0, 64, 111, 248, 192, 0, 0, 0, 0, 65, 132, 197, 176, 0, 0, 0, 0, 66,
    79, 218, 192, 0, 0, 0, 0, 67, 100, 167, 176, 0, 0, 0, 0, 68, 47, 188, 192, 0, 0, 0, 0, 69, 68,
    137, 176, 0, 0, 0, 0, 69, 243, 239, 64, 1, 2, 3, 4, 2, 5, 6, 5, 6, 5, 6, 5, 6, 5, 6, 5, 6, 5,
    6, 5, 6, 5, 6, 5, 6, 5, 6, 5, 6, 5, 6, 5, 6, 5, 6, 7, 9, 8, 9, 8, 9, 8, 9, 8, 9, 8, 9, 8, 9,
    8, 9, 8, 9, 8, 9, 8, 9, 8, 9, 8, 9, 8, 9, 8, 9, 8, 9, 8, 9, 8, 9, 8, 9, 8, 9, 8, 9, 8, 9, 8,
    9, 8, 9, 8, 0, 0, 171, 226, 0, 0, 255, 255, 90, 98, 0, 0, 255, 255, 101, 80, 0, 4, 255, 255,
    115, 96, 1, 8, 255, 255, 115, 96, 1, 12, 255, 255, 101, 80, 0, 16, 255, 255, 115, 96, 1, 20,
    255, 255, 115, 96, 0, 24, 255, 255, 129, 112, 1, 29, 255, 255, 115, 96, 0, 25, 76, 77, 84, 0,
    78, 83, 84, 0, 78, 87, 84, 0, 78, 80, 84, 0, 66, 83, 84, 0, 66, 68, 84, 0, 65, 72, 83, 84, 0,
    72, 68, 84, 0, 10, 72, 83, 84, 49, 48, 72, 68, 84, 44, 77, 51, 46, 50, 46, 48, 44, 77, 49, 49,
    46, 49, 46, 48, 10,
];

/// `America/Anchorage`.
#[verifier::opaque]
pub const AMERICA_ANCHORAGE: [u8; 977] = [
    84, 90, 105, 102, 50, 0, 0, 0, 0, 0, 0, 0, 0, 0, 0, 0, 0, 0, 0, 0, 0, 0, 0, 0, 0, 0, 0, 0, 0,
    0, 0, 0, 0, 0, 0, 0, 0, 0, 0, 1, 0, 0, 0, 1, 0, 0, 0, 0, 0, 0, 0, 84, 90, 105, 102, 50, 0, 0,
    0, 0, 0, 0, 0, 0, 0, 0, 0, 0, 0, 0, 0, 0, 0, 0, 0, 0, 0, 0, 0, 0, 0, 0, 0, 0, 0, 0, 84, 0, 0,
    0, 10, 0, 0, 0, 40, 255, 255, 255, 255, 63, 194, 253, 209, 255, 255, 255, 255, 125, 135, 65,
    72, 255, 255, 255, 255, 203, 137, 54, 192, 255, 255, 255, 255, 210, 35, 244, 112, 255, 255,
    255, 255, 210, 97, 66, 48, 255, 255, 255, 255, 250, 210, 71, 160, 255, 255, 255, 255, 254,
    184, 99, 64, 255, 255, 255, 255, 255, 168, 70, 48, 0, 0, 0, 0, 0, 152, 69, 64, 0, 0, 0, 0, 1,
    136, 40, 48, 0, 0, 0, 0, 2, 120, 39, 64, 0, 0, 0, 0, 3, 113, 68, 176, 0, 0, 0, 0, 4, 97, 67,
    192, 0, 0, 0, 0, 5, 81, 38, 176, 0, 0, 0, 0, 6, 65, 37, 192, 0, 0, 0, 0, 7, 49, 8, 176, 0, 0,
    0, 0, 7, 141, 95, 192, 0, 0, 0, 0, 9, 16, 234, 176, 0, 0, 0, 0, 9, 173, 219, 64, 0, 0, 0, 0,
    10, 240, 204, 176, 0, 0, 0, 0, 11, 224, 203, 192, 0, 0, 0, 0, 12, 217, 233, 48, 0, 0, 0, 0,
    13, 192, 173, 192, 0, 0, 0, 0, 14, 185, 203, 48, 0, 0, 0, 0, 15, 169, 202, 64, 0, 0, 0, 0, 16,
    153, 173, 48, 0, 0, 0, 0, 17, 137, 172, 64, 0, 0, 0, 0, 18, 121, 143, 48, 0, 0, 0, 0, 19, 105,
    142, 64, 0, 0, 0, 0, 20, 89, 113, 48, 0, 0, 0, 0, 21, 73, 112, 64, 0, 0, 0, 0, 22, 57, 83, 48,
    0, 0, 0, 0, 23, 41, 82, 64, 0, 0, 0, 0, 24, 34, 111, 176, 0, 0, 0, 0, 25, 9, 52, 64, 0, 0, 0,
    0, 26, 2, 81, 176, 0, 0, 0, 0, 26, 43, 20, 16, 0, 0, 0, 0, 26, 242, 66, 176, 0, 0, 0, 0, 27,
    226, 37, 160, 0, 0, 0, 0, 28, 210, 36, 176, 0, 0, 0, 0, 29, 194, 7, 160, 0, 0, 0, 0, 30, 178,
    6, 176, 0, 0, 0, 0, 31, 161, 233, 160, 0, 0, 0, 0, 32, 118, 57, 48, 0, 0, 0, 0, 33, 129, 203,
    160, 0, 0, 0, 0, 34, 86, 27, 48, 0, 0, 0, 0, 35, 106, 232, 32, 0, 0, 0, 0, 36, 53, 253, 48, 0,
    0, 0, 0, 37, 74, 202, 32, 0, 0, 0, 0, 38, 21, 223, 48, 0, 0, 0, 0, 39, 42, 172, 32, 0, 0, 0,
    0, 39, 254, 251, 176, 0, 0, 0, 0, 41, 10, 142, 32, 0, 0, 0, 0, 41, 222, 221, 176, 0, 0, 0, 0,
    42, 234, 112, 32, 0, 0, 0, 0, 43, 190, 191, 176, 0, 0, 0, 0, 44, 211, 140, 160, 0, 0, 0, 0,
    45, 158, 161, 176, 0, 0, 0, 0, 46, 179, 110, 160, 0, 0, 0, 0, 47, 126, 131, 176, 0, 0, 0, 0,
    48, 147, 80, 160, 0, 0, 0, 0, 49, 103, 160, 48, 0, 0, 0, 0, 50, 115, 50, 160, 0, 0, 0, 0, 51,
    71, 130, 48, 0, 0, 0, 0, 52, 83, 20, 160, 0, 0, 0, 0, 53, 39, 100, 48, 0, 0, 0, 0, 54, 50,
    246, 160, 0, 0, 0, 0, 55, 7, 70, 48, 0, 0, 0, 0, 56, 28, 19, 32, 0, 0, 0, 0, 56, 231, 40, 48,
    0, 0, 0, 0, 57, 251, 245, 32, 0, 0, 0, 0, 58, 199, 10, 48, 0, 0, 0, 0, 59, 219, 215, 32, 0, 0,
    0, 0, 60, 176, 38, 176, 0, 0, 0, 0, 61, 187, 185, 32, 0, 0, 0, 0, 62, 144, 8, 176, 0, 0, 0, 0,
    63, 155, 155, 32, 0, 0, 0, 0, 64, 111, 234, 176, 0, 0, 0, 0, 65, 132, 183, 160, 0, 0, 0, 0,
    66, 79, 204, 176, 0, 0, 0, 0, 67, 100, 153, 160, 0, 0, 0, 0, 68, 47, 174, 176, 0, 0, 0, 0, 69,
    68, 123, 160, 0, 0, 0, 0, 69, 243, 225, 48, 1, 2, 3, 4, 2, 5, 6, 5, 6, 5, 6, 5, 6, 5, 6, 5, 6,
    5, 6, 5, 6, 5, 6, 5, 6, 5, 6, 5, 6, 5, 6, 5, 6, 5, 6, 7, 9, 8, 9, 8, 9, 8, 9, 8, 9, 8, 9, 8,
    9, 8, 9, 8, 9, 8, 9, 8, 9, 8, 9, 8, 9, 8, 9, 8, 9, 8, 9, 8, 9, 8, 9, 8, 9, 8, 9, 8, 9, 8, 9,
    8, 9, 8, 9, 8, 0, 0, 196, 248, 0, 0, 255, 255, 115, 120, 0, 0, 255, 255, 115, 96, 0, 4, 255,
    255, 129, 112, 1, 8, 255, 255, 129, 112, 1, 12, 255, 255, 115, 96, 0, 16, 255, 255, 129, 112,
    1, 21, 255, 255, 129, 112, 0, 26, 255, 255, 143, 128, 1, 30, 255, 255, 129, 112, 0, 35, 76,
    77, 84, 0, 65, 83, 84, 0, 65, 87, 84, 0, 65, 80, 84, 0, 65, 72, 83, 84, 0, 65, 72, 68, 84, 0,
    89, 83, 84, 0, 65, 75, 68, 84, 0, 65, 75, 83, 84, 0, 10, 65, 75, 83, 84, 57, 65, 75, 68, 84,
    44, 77, 51, 46, 50, 46, 48, 44, 77, 49, 49, 46, 49, 46, 48, 10,
];

/// `America/Araguaina`.
#[verifier::opaque]
pub const AMERICA_ARAGUAINA: [u8; 592] = [
    84, 90, 105, 102, 50, 0, 0, 0, 0, 0, 0, 0, 0, 0, 0, 0, 0, 0, 0, 0, 0, 0, 0, 0, 0, 0, 0, 0, 0,
    0, 0, 0, 0, 0, 0, 0, 0, 0, 0, 1, 0, 0, 0, 1, 0, 0, 0, 0, 0, 0, 0, 84, 90, 105, 102, 50, 0, 0,
    0, 0, 0, 0, 0, 0, 0, 0, 0, 0, 0, 0, 0, 0, 0, 0, 0, 0, 0, 0, 0, 0, 0, 0, 0, 0, 0, 0, 51, 0, 0,
    0, 3, 0, 0, 0, 12, 255, 255, 255, 255, 150, 170, 116, 48, 255, 255, 255, 255, 184, 15, 73,
    224, 255, 255, 255, 255, 184, 253, 64, 160, 255, 255, 255, 255, 185, 241, 52, 48, 255, 255,
    255, 255, 186, 222, 116, 32, 255, 255, 255, 255, 218, 56, 174, 48, 255, 255, 255, 255, 218,
    235, 250, 48, 255, 255, 255, 255, 220, 25, 225, 176, 255, 255, 255, 255, 220, 185, 89, 32,
    255, 255, 255, 255, 221, 251, 21, 48, 255, 255, 255, 255, 222, 155, 222, 32, 255, 255, 255,
    255, 223, 221, 154, 48, 255, 255, 255, 255, 224, 84, 51, 32, 255, 255, 255, 255, 244, 151,
    255, 176, 255, 255, 255, 255, 245, 5, 94, 32, 255, 255, 255, 255, 246, 192, 100, 48, 255, 255,
    255, 255, 247, 14, 30, 160, 255, 255, 255, 255, 248, 81, 44, 48, 255, 255, 255, 255, 248, 199,
    197, 32, 255, 255, 255, 255, 250, 10, 210, 176, 255, 255, 255, 255, 250, 168, 248, 160, 255,
    255, 255, 255, 251, 236, 6, 48, 255, 255, 255, 255, 252, 139, 125, 160, 0, 0, 0, 0, 29, 201,
    142, 48, 0, 0, 0, 0, 30, 120, 215, 160, 0, 0, 0, 0, 31, 160, 53, 176, 0, 0, 0, 0, 32, 51, 207,
    160, 0, 0, 0, 0, 33, 129, 105, 48, 0, 0, 0, 0, 34, 11, 200, 160, 0, 0, 0, 0, 35, 88, 16, 176,
    0, 0, 0, 0, 35, 226, 112, 32, 0, 0, 0, 0, 37, 55, 242, 176, 0, 0, 0, 0, 37, 212, 199, 32, 0,
    0, 0, 0, 48, 128, 121, 48, 0, 0, 0, 0, 49, 29, 77, 160, 0, 0, 0, 0, 50, 87, 32, 176, 0, 0, 0,
    0, 51, 6, 106, 32, 0, 0, 0, 0, 52, 56, 84, 48, 0, 0, 0, 0, 52, 248, 193, 32, 0, 0, 0, 0, 54,
    32, 31, 48, 0, 0, 0, 0, 54, 207, 104, 160, 0, 0, 0, 0, 55, 246, 198, 176, 0, 0, 0, 0, 56, 184,
    133, 32, 0, 0, 0, 0, 57, 223, 227, 48, 0, 0, 0, 0, 58, 143, 44, 160, 0, 0, 0, 0, 59, 200, 255,
    176, 0, 0, 0, 0, 60, 111, 14, 160, 0, 0, 0, 0, 61, 196, 145, 48, 0, 0, 0, 0, 62, 78, 240, 160,
    0, 0, 0, 0, 80, 131, 101, 48, 0, 0, 0, 0, 81, 32, 57, 160, 2, 1, 2, 1, 2, 1, 2, 1, 2, 1, 2, 1,
    2, 1, 2, 1, 2, 1, 2, 1, 2, 1, 2, 1, 2, 1, 2, 1, 2, 1, 2, 1, 2, 1, 2, 1, 2, 1, 2, 1, 2, 1, 2,
    1, 2, 1, 2, 1, 2, 1, 2, 255, 255, 210, 208, 0, 0, 255, 255, 227, 224, 1, 4, 255, 255, 213,
    208, 0, 8, 76, 77, 84, 0, 45, 48, 50, 0, 45, 48, 51, 0, 10, 60, 45, 48, 51, 62, 51, 10,
];

/// `America/Argentina/Buenos_Aires`.
#[verifier::opaque]
pub const AMERICA_ARGENTINA_BUENOS_AIRES: [u8; 708] = [
    84, 90, 105, 102, 50, 0, 0, 0, 0, 0, 0, 0, 0, 0, 0, 0, 0, 0, 0, 0, 0, 0, 0, 0, 0, 0, 0, 0, 0,
    0, 0, 0, 0, 0, 0, 0, 0, 0, 0, 1, 0, 0, 0, 1, 0, 0, 0, 0, 0, 0, 0, 84, 90, 105, 102, 50, 0, 0,
    0, 0, 0, 0, 0, 0, 0, 0, 0, 0, 0, 0, 0, 0, 0, 0, 0, 0, 0, 0, 0, 0, 0, 0, 0, 0, 0, 0, 61, 0, 0,
    0, 6, 0, 0, 0, 20, 255, 255, 255, 255, 114, 156, 168, 76, 255, 255, 255, 255, 162, 146, 143,
    48, 255, 255, 255, 255, 182, 123, 82, 64, 255, 255, 255, 255, 183, 26, 201, 176, 255, 255,
    255, 255, 184, 30, 143, 64, 255, 255, 255, 255, 184, 212, 112, 48, 255, 255, 255, 255, 186,
    23, 125, 192, 255, 255, 255, 255, 186, 181, 163, 176, 255, 255, 255, 255, 187, 248, 177, 64,
    255, 255, 255, 255, 188, 150, 215, 48, 255, 255, 255, 255, 189, 217, 228, 192, 255, 255, 255,
    255, 190, 120, 10, 176, 255, 255, 255, 255, 191, 187, 24, 64, 255, 255, 255, 255, 192, 90,
    143, 176, 255, 255, 255, 255, 193, 157, 157, 64, 255, 255, 255, 255, 194, 59, 195, 48, 255,
    255, 255, 255, 195, 126, 208, 192, 255, 255, 255, 255, 196, 28, 246, 176, 255, 255, 255, 255,
    197, 96, 4, 64, 255, 255, 255, 255, 197, 254, 42, 48, 255, 255, 255, 255, 199, 65, 55, 192,
    255, 255, 255, 255, 199, 224, 175, 48, 255, 255, 255, 255, 200, 129, 148, 64, 255, 255, 255,
    255, 202, 77, 161, 176, 255, 255, 255, 255, 202, 238, 134, 192, 255, 255, 255, 255, 206, 77,
    255, 48, 255, 255, 255, 255, 206, 176, 237, 192, 255, 255, 255, 255, 211, 41, 53, 176, 255,
    255, 255, 255, 212, 67, 100, 192, 255, 255, 255, 255, 244, 61, 8, 48, 255, 255, 255, 255, 244,
    159, 246, 192, 255, 255, 255, 255, 245, 5, 108, 48, 255, 255, 255, 255, 246, 50, 16, 64, 255,
    255, 255, 255, 246, 230, 159, 176, 255, 255, 255, 255, 248, 19, 67, 192, 255, 255, 255, 255,
    248, 199, 211, 48, 255, 255, 255, 255, 249, 244, 119, 64, 255, 255, 255, 255, 250, 211, 54,
    176, 255, 255, 255, 255, 251, 195, 53, 192, 255, 255, 255, 255, 252, 188, 83, 48, 255, 255,
    255, 255, 253, 172, 82, 64, 255, 255, 255, 255, 254, 156, 53, 48, 255, 255, 255, 255, 255,
    140, 52, 64, 0, 0, 0, 0, 7, 163, 74, 176, 0, 0, 0, 0, 8, 36, 111, 160, 0, 0, 0, 0, 35, 148,
    181, 176, 0, 0, 0, 0, 36, 16, 148, 160, 0, 0, 0, 0, 37, 55, 242, 176, 0, 0, 0, 0, 37, 240,
    118, 160, 0, 0, 0, 0, 39, 33, 15, 48, 0, 0, 0, 0, 39, 208, 88, 160, 0, 0, 0, 0, 41, 0, 241,
    48, 0, 0, 0, 0, 41, 176, 58, 160, 0, 0, 0, 0, 42, 224, 211, 48, 0, 0, 0, 0, 43, 153, 87, 32,
    0, 0, 0, 0, 55, 246, 198, 176, 0, 0, 0, 0, 56, 191, 42, 176, 0, 0, 0, 0, 71, 119, 9, 176, 0,
    0, 0, 0, 71, 220, 127, 32, 0, 0, 0, 0, 72, 250, 162, 176, 0, 0, 0, 0, 73, 188, 97, 32, 1, 2,
    3, 2, 3, 2, 3, 2, 3, 2, 3, 2, 3, 2, 3, 2, 3, 2, 3, 2, 3, 2, 3, 2, 3, 2, 3, 2, 3, 2, 3, 2, 3,
    2, 3, 2, 3, 2, 3, 2, 3, 2, 5, 4, 5, 4, 5, 4, 5, 4, 5, 4, 5, 4, 5, 3, 5, 4, 5, 4, 5, 255, 255,
    201, 52, 0, 0, 255, 255, 195, 208, 0, 4, 255, 255, 199, 192, 0, 8, 255, 255, 213, 208, 1, 12,
    255, 255, 227, 224, 1, 16, 255, 255, 213, 208, 0, 12, 76, 77, 84, 0, 67, 77, 84, 0, 45, 48,
    52, 0, 45, 48, 51, 0, 45, 48, 50, 0, 10, 60, 45, 48, 51, 62, 51, 10,
];

/// `America/Argentina/Catamarca`.
#[verifier::opaque]
pub const AMERICA_ARGENTINA_CATAMARCA: [u8; 708] = [
    84, 90, 105, 102, 50, 0, 0, 0, 0, 0, 0, 0, 0, 0, 0, 0, 0, 0, 0, 0, 0, 0, 0, 0, 0, 0, 0, 0, 0,
    0, 0, 0, 0, 0, 0, 0, 0, 0, 0, 1, 0, 0, 0, 1, 0, 0, 0, 0, 0, 0, 0, 84, 90, 105, 102, 50, 0, 0,
    0, 0, 0, 0, 0, 0, 0, 0, 0, 0, 0, 0, 0, 0, 0, 0, 0, 0, 0, 0, 0, 0, 0, 0, 0, 0, 0, 0, 61, 0, 0,
    0, 6, 0, 0, 0, 20, 255, 255, 255, 255, 114, 156, 175, 44, 255, 255, 255, 255, 162, 146, 143,
    48, 255, 255, 255, 255, 182, 123, 82, 64, 255, 255, 255, 255, 183, 26, 201, 176, 255, 255,
    255, 255, 184, 30, 143, 64, 255, 255, 255, 255, 184, 212, 112, 48, 255, 255, 255, 255, 186,
    23, 125, 192, 255, 255, 255, 255, 186, 181, 163, 176, 255, 255, 255, 255, 187, 248, 177, 64,
    255, 255, 255, 255, 188, 150, 215, 48, 255, 255, 255, 255, 189, 217, 228, 192, 255, 255, 255,
    255, 190, 120, 10, 176, 255, 255, 255, 255, 191, 187, 24, 64, 255, 255, 255, 255, 192, 90,
    143, 176, 255, 255, 255, 255, 193, 157, 157, 64, 255, 255, 255, 255, 194, 59, 195, 48, 255,
    255, 255, 255, 195, 126, 208, 192, 255, 255, 255, 255, 196, 28, 246, 176, 255, 255, 255, 255,
    197, 96, 4, 64, 255, 255, 255, 255, 197, 254, 42, 48, 255, 255, 255, 255, 199, 65, 55, 192,
    255, 255, 255, 255, 199, 224, 175, 48, 255, 255, 255, 255, 200, 129, 148, 64, 255, 255, 255,
    255, 202, 77, 161, 176, 255, 255, 255, 255, 202, 238, 134, 192, 255, 255, 255, 255, 206, 77,
    255, 48, 255, 255, 255, 255, 206, 176, 237, 192, 255, 255, 255, 255, 211, 41, 53, 176, 255,
    255, 255, 255, 212, 67, 100, 192, 255, 255, 255, 255, 244, 61, 8, 48, 255, 255, 255, 255, 244,
    159, 246, 192, 255, 255, 255, 255, 245, 5, 108, 48, 255, 255, 255, 255, 246, 50, 16, 64, 255,
    255, 255, 255, 246, 230, 159, 176, 255, 255, 255, 255, 248, 19, 67, 192, 255, 255, 255, 255,
    248, 199, 211, 48, 255, 255, 255, 255, 249, 244, 119, 64, 255, 255, 255, 255, 250, 211, 54,
    176, 255, 255, 255, 255, 251, 195, 53, 192, 255, 255, 255, 255, 252, 188, 83, 48, 255, 255,
    255, 255, 253, 172, 82, 64, 255, 255, 255, 255, 254, 156, 53, 48, 255, 255, 255, 255, 255,
    140, 52, 64, 0, 0, 0, 0, 7, 163, 74, 176, 0, 0, 0, 0, 8, 36, 111, 160, 0, 0, 0, 0, 35, 148,
    181, 176, 0, 0, 0, 0, 36, 16, 148, 160, 0, 0, 0, 0, 37, 55, 242, 176, 0, 0, 0, 0, 37, 240,
    118, 160, 0, 0, 0, 0, 39, 33, 15, 48, 0, 0, 0, 0, 39, 208, 88, 160, 0, 0, 0, 0, 41, 0, 255,
    64, 0, 0, 0, 0, 41, 176, 58, 160, 0, 0, 0, 0, 42, 224, 211, 48, 0, 0, 0, 0, 43, 153, 87, 32,
    0, 0, 0, 0, 55, 246, 198, 176, 0, 0, 0, 0, 56, 191, 42, 176, 0, 0, 0, 0, 64, 187, 241, 48, 0,
    0, 0, 0, 64, 213, 11, 192, 0, 0, 0, 0, 71, 119, 9, 176, 0, 0, 0, 0, 71, 220, 127, 32, 1, 2, 3,
    2, 3, 2, 3, 2, 3, 2, 3, 2, 3, 2, 3, 2, 3, 2, 3, 2, 3, 2, 3, 2, 3, 2, 3, 2, 3, 2, 3, 2, 3, 2,
    3, 2, 3, 2, 3, 2, 3, 2, 5, 4, 5, 4, 5, 4, 5, 4, 2, 4, 5, 4, 5, 3, 5, 2, 5, 4, 5, 255, 255,
    194, 84, 0, 0, 255, 255, 195, 208, 0, 4, 255, 255, 199, 192, 0, 8, 255, 255, 213, 208, 1, 12,
    255, 255, 227, 224, 1, 16, 255, 255, 213, 208, 0, 12, 76, 77, 84, 0, 67, 77, 84, 0, 45, 48,
    52, 0, 45, 48, 51, 0, 45, 48, 50, 0, 10, 60, 45, 48, 51, 62, 51, 10,
];

/// `America/Argentina/Cordoba`.
#[verifier::opaque]
pub const AMERICA_ARGENTINA_CORDOBA: [u8; 708] = [
    84, 90, 105, 102, 50, 0, 0, 0, 0, 0, 0, 0, 0, 0, 0, 0, 0, 0, 0, 0, 0, 0, 0, 0, 0, 0, 0, 0, 0,
    0, 0, 0, 0, 0, 0, 0, 0, 0, 0, 1, 0, 0, 0, 1, 0, 0, 0, 0, 0, 0, 0, 84, 90, 105, 102, 50, 0, 0,
    0, 0, 0, 0, 0, 0, 0, 0, 0, 0, 0, 0, 0, 0, 0, 0, 0, 0, 0, 0, 0, 0, 0, 0, 0, 0, 0, 0, 61, 0, 0,
    0, 6, 0, 0, 0, 20, 255, 255, 255, 255, 114, 156, 173, 176, 255, 255, 255, 255, 162, 146, 143,
    48, 255, 255, 255, 255, 182, 123, 82, 64, 255, 255, 255, 255, 183, 26, 201, 176, 255, 255,
    255, 255, 184, 30, 143, 64, 255, 255, 255, 255, 184, 212, 112, 48, 255, 255, 255, 255, 186,
    23, 125, 192, 255, 255, 255, 255, 186, 181, 163, 176, 255, 255, 255, 255, 187, 248, 177, 64,
    255, 255, 255, 255, 188, 150, 215, 48, 255, 255, 255, 255, 189, 217, 228, 192, 255, 255, 255,
    255, 190, 120, 10, 176, 255, 255, 255, 255, 191, 187, 24, 64, 255, 255, 255, 255, 192, 90,
    143, 176, 255, 255, 255, 255, 193, 157, 157, 64, 255, 255, 255, 255, 194, 59, 195, 48, 255,
    255, 255, 255, 195, 126, 208, 192, 255, 255, 255, 255, 196, 28, 246, 176, 255, 255, 255, 255,
    197, 96, 4, 64, 255, 255, 255, 255, 197, 254, 42, 48, 255, 255, 255, 255, 199, 65, 55, 192,
    255, 255, 255, 255, 199, 224, 175, 48, 255, 255, 255, 255, 200, 129, 148, 64, 255, 255, 255,
    255, 202, 77, 161, 176, 255, 255, 255, 255, 202, 238, 134, 192, 255, 255, 255, 255, 206, 77,
    255, 48, 255, 255, 255, 255, 206, 176, 237, 192, 255, 255, 255, 255, 211, 41, 53, 176, 255,
    255, 255, 255, 212, 67, 100, 192, 255, 255, 255, 255, 244, 61, 8, 48, 255, 255, 255, 255, 244,
    159, 246, 192, 255, 255, 255, 255, 245, 5, 108, 48, 255, 255, 255, 255, 246, 50, 16, 64, 255,
    255, 255, 255, 246, 230, 159, 176, 255, 255, 255, 255, 248, 19, 67, 192, 255, 255, 255, 255,
    248, 199, 211, 48, 255, 255, 255, 255, 249, 244, 119, 64, 255, 255, 255, 255, 250, 211, 54,
    176, 255, 255, 255, 255, 251, 195, 53, 192, 255, 255, 255, 255, 252, 188, 83, 48, 255, 255,
    255, 255, 253, 172, 82, 64, 255, 255, 255, 255, 254, 156, 53, 48, 255, 255, 255, 255, 255,
    140, 52, 64, 0, 0, 0, 0, 7, 163, 74, 176, 0, 0, 0, 0, 8, 36, 111, 160, 0, 0, 0, 0, 35, 148,
    181, 176, 0, 0, 0, 0, 36, 16, 148, 160, 0, 0, 0, 0, 37, 55, 242, 176, 0, 0, 0, 0, 37, 240,
    118, 160, 0, 0, 0, 0, 39, 33, 15, 48, 0, 0, 0, 0, 39, 208, 88, 160, 0, 0, 0, 0, 41, 0, 255,
    64, 0, 0, 0, 0, 41, 176, 58, 160, 0, 0, 0, 0, 42, 224, 211, 48, 0, 0, 0, 0, 43, 153, 87, 32,
    0, 0, 0, 0, 55, 246, 198, 176, 0, 0, 0, 0, 56, 191, 42, 176, 0, 0, 0, 0, 71, 119, 9, 176, 0,
    0, 0, 0, 71, 220, 127, 32, 0, 0, 0, 0, 72, 250, 162, 176, 0, 0, 0, 0, 73, 188, 97, 32, 1, 2,
    3, 2, 3, 2, 3, 2, 3, 2, 3, 2, 3, 2, 3, 2, 3, 2, 3, 2, 3, 2, 3, 2, 3, 2, 3, 2, 3, 2, 3, 2, 3,
    2, 3, 2, 3, 2, 3, 2, 3, 2, 5, 4, 5, 4, 5, 4, 5, 4, 2, 4, 5, 4, 5, 3, 5, 4, 5, 4, 5, 255, 255,
    195, 208, 0, 0, 255, 255, 195, 208, 0, 4, 255, 255, 199, 192, 0, 8, 255, 255, 213, 208, 1, 12,
    255, 255, 227, 224, 1, 16, 255, 255, 213, 208, 0, 12, 76, 77, 84, 0, 67, 77, 84, 0, 45, 48,
    52, 0, 45, 48, 51, 0, 45, 48, 50, 0, 10, 60, 45, 48, 51, 62, 51, 10,
];

/// `America/Argentina/Jujuy`.
#[verifier::opaque]
pub const AMERICA_ARGENTINA_JUJUY: [u8; 690] = [
    84, 90, 105, 102, 50, 0, 0, 0, 0, 0, 0, 0, 0, 0, 0, 0, 0, 0, 0, 0, 0, 0, 0, 0, 0, 0, 0, 0, 0,
    0, 0, 0, 0, 0, 0, 0, 0, 0, 0, 1, 0, 0, 0, 1, 0, 0, 0, 0, 0, 0, 0, 84, 90, 105, 102, 50, 0, 0,
    0, 0, 0, 0, 0, 0, 0, 0, 0, 0, 0, 0, 0, 0, 0, 0, 0, 0, 0, 0, 0, 0, 0, 0, 0, 0, 0, 0, 59, 0, 0,
    0, 6, 0, 0, 0, 20, 255, 255, 255, 255, 114, 156, 174, 184, 255, 255, 255, 255, 162, 146, 143,
    48, 255, 255, 255, 255, 182, 123, 82, 64, 255, 255, 255, 255, 183, 26, 201, 176, 255, 255,
    255, 255, 184, 30, 143, 64, 255, 255, 255, 255, 184, 212, 112, 48, 255, 255, 255, 255, 186,
    23, 125, 192, 255, 255, 255, 255, 186, 181, 163, 176, 255, 255, 255, 255, 187, 248, 177, 64,
    255, 255, 255, 255, 188, 150, 215, 48, 255, 255, 255, 255, 189, 217, 228, 192, 255, 255, 255,
    255, 190, 120, 10, 176, 255, 255, 255, 255, 191, 187, 24, 64, 255, 255, 255, 255, 192, 90,
    143, 176, 255, 255, 255, 255, 193, 157, 157, 64, 255, 255, 255, 255, 194, 59, 195, 48, 255,
    255, 255, 255, 195, 126, 208, 192, 255, 255, 255, 255, 196, 28, 246, 176, 255, 255, 255, 255,
    197, 96, 4, 64, 255, 255, 255, 255, 197, 254, 42, 48, 255, 255, 255, 255, 199, 65, 55, 192,
    255, 255, 255, 255, 199, 224, 175, 48, 255, 255, 255, 255, 200, 129, 148, 64, 255, 255, 255,
    255, 202, 77, 161, 176, 255, 255, 255, 255, 202, 238, 134, 192, 255, 255, 255, 255, 206, 77,
    255, 48, 255, 255, 255, 255, 206, 176, 237, 192, 255, 255, 255, 255, 211, 41, 53, 176, 255,
    255, 255, 255, 212, 67, 100, 192, 255, 255, 255, 255, 244, 61, 8, 48, 255, 255, 255, 255, 244,
    159, 246, 192, 255, 255, 255, 255, 245, 5, 108, 48, 255, 255, 255, 255, 246, 50, 16, 64, 255,
    255, 255, 255, 246, 230, 159, 176, 255, 255, 255, 255, 248, 19, 67, 192, 255, 255, 255, 255,
    248, 199, 211, 48, 255, 255, 255, 255, 249, 244, 119, 64, 255, 255, 255, 255, 250, 211, 54,
    176, 255, 255, 255, 255, 251, 195, 53, 192, 255, 255, 255, 255, 252, 188, 83, 48, 255, 255,
    255, 255, 253, 172, 82, 64, 255, 255, 255, 255, 254, 156, 53, 48, 255, 255, 255, 255, 255,
    140, 52, 64, 0, 0, 0, 0, 7, 163, 74, 176, 0, 0, 0, 0, 8, 36, 111, 160, 0, 0, 0, 0, 35, 148,
    181, 176, 0, 0, 0, 0, 36, 16, 148, 160, 0, 0, 0, 0, 37, 55, 242, 176, 0, 0, 0, 0, 37, 240,
    118, 160, 0, 0, 0, 0, 39, 42, 87, 192, 0, 0, 0, 0, 39, 226, 219, 176, 0, 0, 0, 0, 40, 238,
    138, 64, 0, 0, 0, 0, 41, 176, 58, 160, 0, 0, 0, 0, 42, 224, 211, 48, 0, 0, 0, 0, 43, 153, 87,
    32, 0, 0, 0, 0, 55, 246, 198, 176, 0, 0, 0, 0, 56, 191, 42, 176, 0, 0, 0, 0, 71, 119, 9, 176,
    0, 0, 0, 0, 71, 220, 127, 32, 1, 2, 3, 2, 3, 2, 3, 2, 3, 2, 3, 2, 3, 2, 3, 2, 3, 2, 3, 2, 3,
    2, 3, 2, 3, 2, 3, 2, 3, 2, 3, 2, 3, 2, 3, 2, 3, 2, 3, 2, 3, 2, 5, 4, 5, 4, 5, 4, 2, 3, 2, 4,
    5, 4, 5, 3, 5, 4, 5, 255, 255, 194, 200, 0, 0, 255, 255, 195, 208, 0, 4, 255, 255, 199, 192,
    0, 8, 255, 255, 213, 208, 1, 12, 255, 255, 227, 224, 1, 16, 255, 255, 213, 208, 0, 12, 76, 77,
    84, 0, 67, 77, 84, 0, 45, 48, 52, 0, 45, 48, 51, 0, 45, 48, 50, 0, 10, 60, 45, 48, 51, 62, 51,
    10,
];

/// `America/Argentina/La_Rioja`.
#[verifier::opaque]
pub const AMERICA_ARGENTINA_LA_RIOJA: [u8; 717] = [
    84, 90, 105, 102, 50, 0, 0, 0, 0, 0, 0, 0, 0, 0, 0, 0, 0, 0, 0, 0, 0, 0, 0, 0, 0, 0, 0, 0, 0,
    0, 0, 0, 0, 0, 0, 0, 0, 0, 0, 1, 0, 0, 0, 1, 0, 0, 0, 0, 0, 0, 0, 84, 90, 105, 102, 50, 0, 0,
    0, 0, 0, 0, 0, 0, 0, 0, 0, 0, 0, 0, 0, 0, 0, 0, 0, 0, 0, 0, 0, 0, 0, 0, 0, 0, 0, 0, 62, 0, 0,
    0, 6, 0, 0, 0, 20, 255, 255, 255, 255, 114, 156, 176, 44, 255, 255, 255, 255, 162, 146, 143,
    48, 255, 255, 255, 255, 182, 123, 82, 64, 255, 255, 255, 255, 183, 26, 201, 176, 255, 255,
    255, 255, 184, 30, 143, 64, 255, 255, 255, 255, 184, 212, 112, 48, 255, 255, 255, 255, 186,
    23, 125, 192, 255, 255, 255, 255, 186, 181, 163, 176, 255, 255, 255, 255, 187, 248, 177, 64,
    255, 255, 255, 255, 188, 150, 215, 48, 255, 255, 255, 255, 189, 217, 228, 192, 255, 255, 255,
    255, 190, 120, 10, 176, 255, 255, 255, 255, 191, 187, 24, 64, 255, 255, 255, 255, 192, 90,
    143, 176, 255, 255, 255, 255, 193, 157, 157, 64, 255, 255, 255, 255, 194, 59, 195, 48, 255,
    255, 255, 255, 195, 126, 208, 192, 255, 255, 255, 255, 196, 28, 246, 176, 255, 255, 255, 255,
    197, 96, 4, 64, 255, 255, 255, 255, 197, 254, 42, 48, 255, 255, 255, 255, 199, 65, 55, 192,
    255, 255, 255, 255, 199, 224, 175, 48, 255, 255, 255, 255, 200, 129, 148, 64, 255, 255, 255,
    255, 202, 77, 161, 176, 255, 255, 255, 255, 202, 238, 134, 192, 255, 255, 255, 255, 206, 77,
    255, 48, 255, 255, 255, 255, 206, 176, 237, 192, 255, 255, 255, 255, 211, 41, 53, 176, 255,
    255, 255, 255, 212, 67, 100, 192, 255, 255, 255, 255, 244, 61, 8, 48, 255, 255, 255, 255, 244,
    159, 246, 192, 255, 255, 255, 255, 245, 5, 108, 48, 255, 255, 255, 255, 246, 50, 16, 64, 255,
    255, 255, 255, 246, 230, 159, 176, 255, 255, 255, 255, 248, 19, 67, 192, 255, 255, 255, 255,
    248, 199, 211, 48, 255, 255, 255, 255, 249, 244, 119, 64, 255, 255, 255, 255, 250, 211, 54,
    176, 255, 255, 255, 255, 251, 195, 53, 192, 255, 255, 255, 255, 252, 188, 83, 48, 255, 255,
    255, 255, 253, 172, 82, 64, 255, 255, 255, 255, 254, 156, 53, 48, 255, 255, 255, 255, 255,
    140, 52, 64, 0, 0, 0, 0, 7, 163, 74, 176, 0, 0, 0, 0, 8, 36, 111, 160, 0, 0, 0, 0, 35, 148,
    181, 176, 0, 0, 0, 0, 36, 16, 148, 160, 0, 0, 0, 0, 37, 55, 242, 176, 0, 0, 0, 0, 37, 240,
    118, 160, 0, 0, 0, 0, 39, 33, 15, 48, 0, 0, 0, 0, 39, 205, 181, 160, 0, 0, 0, 0, 40, 38, 38,
    64, 0, 0, 0, 0, 41, 0, 241, 48, 0, 0, 0, 0, 41, 176, 58, 160, 0, 0, 0, 0, 42, 224, 211, 48, 0,
    0, 0, 0, 43, 153, 87, 32, 0, 0, 0, 0, 55, 246, 198, 176, 0, 0, 0, 0, 56, 191, 42, 176, 0, 0,
    0, 0, 64, 187, 241, 48, 0, 0, 0, 0, 64, 213, 11, 192, 0, 0, 0, 0, 71, 119, 9, 176, 0, 0, 0, 0,
    71, 220, 127, 32, 1, 2, 3, 2, 3, 2, 3, 2, 3, 2, 3, 2, 3, 2, 3, 2, 3, 2, 3, 2, 3, 2, 3, 2, 3,
    2, 3, 2, 3, 2, 3, 2, 3, 2, 3, 2, 3, 2, 3, 2, 3, 2, 5, 4, 5, 4, 5, 4, 5, 4, 2, 5, 4, 5, 4, 5,
    3, 5, 2, 5, 4, 5, 255, 255, 193, 84, 0, 0, 255, 255, 195, 208, 0, 4, 255, 255, 199, 192, 0, 8,
    255, 255, 213, 208, 1, 12, 255, 255, 227, 224, 1, 16, 255, 255, 213, 208, 0, 12, 76, 77, 84,
    0, 67, 77, 84, 0, 45, 48, 52, 0, 45, 48, 51, 0, 45, 48, 50, 0, 10, 60, 45, 48, 51, 62, 51, 10,
];

/// `America/Argentina/Mendoza`.
#[verifier::opaque]
pub const AMERICA_ARGENTINA_MENDOZA: [u8; 708] = [
    84, 90, 105, 102, 50, 0, 0, 0, 0, 0, 0, 0, 0, 0, 0, 0, 0, 0, 0, 0, 0, 0, 0, 0, 0, 0, 0, 0, 0,
    0, 0, 0, 0, 0, 0, 0, 0, 0, 0, 1, 0, 0, 0, 1, 0, 0, 0, 0, 0, 0, 0, 84, 90, 105, 102, 50, 0, 0,
    0, 0, 0, 0, 0, 0, 0, 0, 0, 0, 0, 0, 0, 0, 0, 0, 0, 0, 0, 0, 0, 0, 0, 0, 0, 0, 0, 0, 61, 0, 0,
    0, 6, 0, 0, 0, 20, 255, 255, 255, 255, 114, 156, 178, 4, 255, 255, 255, 255, 162, 146, 143,
    48, 255, 255, 255, 255, 182, 123, 82, 64, 255, 255, 255, 255, 183, 26, 201, 176, 255, 255,
    255, 255, 184, 30, 143, 64, 255, 255, 255, 255, 184, 212, 112, 48, 255, 255, 255, 255, 186,
    23, 125, 192, 255, 255, 255, 255, 186, 181, 163, 176, 255, 255, 255, 255, 187, 248, 177, 64,
    255, 255, 255, 255, 188, 150, 215, 48, 255, 255, 255, 255, 189, 217, 228, 192, 255, 255, 255,
    255, 190, 120, 10, 176, 255, 255, 255, 255, 191, 187, 24, 64, 255, 255, 255, 255, 192, 90,
    143, 176, 255, 255, 255, 255, 193, 157, 157, 64, 255, 255, 255, 255, 194, 59, 195, 48, 255,
    255, 255, 255, 195, 126, 208, 192, 255, 255, 255, 255, 196, 28, 246, 176, 255, 255, 255, 255,
    197, 96, 4, 64, 255, 255, 255, 255, 197, 254, 42, 48, 255, 255, 255, 255, 199, 65, 55, 192,
    255, 255, 255, 255, 199, 224, 175, 48, 255, 255, 255, 255, 200, 129, 148, 64, 255, 255, 255,
    255, 202, 77, 161, 176, 255, 255, 255, 255, 202, 238, 134, 192, 255, 255, 255, 255, 206, 77,
    255, 48, 255, 255, 255, 255, 206, 176, 237, 192, 255, 255, 255, 255, 211, 41, 53, 176, 255,
    255, 255, 255, 212, 67, 100, 192, 255, 255, 255, 255, 244, 61, 8, 48, 255, 255, 255, 255, 244,
    159, 246, 192, 255, 255, 255, 255, 245, 5, 108, 48, 255, 255, 255, 255, 246, 50, 16, 64, 255,
    255, 255, 255, 246, 230, 159, 176, 255, 255, 255, 255, 248, 19, 67, 192, 255, 255, 255, 255,
    248, 199, 211, 48, 255, 255, 255, 255, 249, 244, 119, 64, 255, 255, 255, 255, 250, 211, 54,
    176, 255, 255, 255, 255, 251, 195, 53, 192, 255, 255, 255, 255, 252, 188, 83, 48, 255, 255,
    255, 255, 253, 172, 82, 64, 255, 255, 255, 255, 254, 156, 53, 48, 255, 255, 255, 255, 255,
    140, 52, 64, 0, 0, 0, 0, 7, 163, 74, 176, 0, 0, 0, 0, 8, 36, 111, 160, 0, 0, 0, 0, 35, 148,
    181, 176, 0, 0, 0, 0, 36, 16, 148, 160, 0, 0, 0, 0, 37, 55, 242, 176, 0, 0, 0, 0, 37, 240,
    118, 160, 0, 0, 0, 0, 39, 25, 52, 64, 0, 0, 0, 0, 39, 205, 195, 176, 0, 0, 0, 0, 40, 250, 103,
    192, 0, 0, 0, 0, 41, 176, 72, 176, 0, 0, 0, 0, 42, 224, 225, 64, 0, 0, 0, 0, 43, 153, 87, 32,
    0, 0, 0, 0, 55, 246, 198, 176, 0, 0, 0, 0, 56, 191, 42, 176, 0, 0, 0, 0, 64, 176, 19, 176, 0,
    0, 0, 0, 65, 86, 62, 192, 0, 0, 0, 0, 71, 119, 9, 176, 0, 0, 0, 0, 71, 220, 127, 32, 1, 2, 3,
    2, 3, 2, 3, 2, 3, 2, 3, 2, 3, 2, 3, 2, 3, 2, 3, 2, 3, 2, 3, 2, 3, 2, 3, 2, 3, 2, 3, 2, 3, 2,
    3, 2, 3, 2, 3, 2, 3, 2, 5, 4, 5, 4, 5, 4, 2, 3, 2, 3, 2, 4, 5, 3, 5, 2, 5, 4, 5, 255, 255,
    191, 124, 0, 0, 255, 255, 195, 208, 0, 4, 255, 255, 199, 192, 0, 8, 255, 255, 213, 208, 1, 12,
    255, 255, 227, 224, 1, 16, 255, 255, 213, 208, 0, 12, 76, 77, 84, 0, 67, 77, 84, 0, 45, 48,
    52, 0, 45, 48, 51, 0, 45, 48, 50, 0, 10, 60, 45, 48, 51, 62, 51, 10,
];

/// `America/Argentina/Rio_Gallegos`.
#[verifier::opaque]
pub const AMERICA_ARGENTINA_RIO_GALLEGOS: [u8; 708] = [
    84, 90, 105, 102, 50, 0, 0, 0, 0, 0, 0, 0, 0, 0, 0, 0, 0, 0, 0, 0, 0, 0, 0, 0, 0, 0, 0, 0, 0,
    0, 0, 0, 0, 0, 0, 0, 0, 0, 0, 1, 0, 0, 0, 1, 0, 0, 0, 0, 0, 0, 0, 84, 90, 105, 102, 50, 0, 0,
    0, 0, 0, 0, 0, 0, 0, 0, 0, 0, 0, 0, 0, 0, 0, 0, 0, 0, 0, 0, 0, 0, 0, 0, 0, 0, 0, 0, 61, 0, 0,
    0, 6, 0, 0, 0, 20, 255, 255, 255, 255, 114, 156, 178, 100, 255, 255, 255, 255, 162, 146, 143,
    48, 255, 255, 255, 255, 182, 123, 82, 64, 255, 255, 255, 255, 183, 26, 201, 176, 255, 255,
    255, 255, 184, 30, 143, 64, 255, 255, 255, 255, 184, 212, 112, 48, 255, 255, 255, 255, 186,
    23, 125, 192, 255, 255, 255, 255, 186, 181, 163, 176, 255, 255, 255, 255, 187, 248, 177, 64,
    255, 255, 255, 255, 188, 150, 215, 48, 255, 255, 255, 255, 189, 217, 228, 192, 255, 255, 255,
    255, 190, 120, 10, 176, 255, 255, 255, 255, 191, 187, 24, 64, 255, 255, 255, 255, 192, 90,
    143, 176, 255, 255, 255, 255, 193, 157, 157, 64, 255, 255, 255, 255, 194, 59, 195, 48, 255,
    255, 255, 255, 195, 126, 208, 192, 255, 255, 255, 255, 196, 28, 246, 176, 255, 255, 255, 255,
    197, 96, 4, 64, 255, 255, 255, 255, 197, 254, 42, 48, 255, 255, 255, 255, 199, 65, 55, 192,
    255, 255, 255, 255, 199, 224, 175, 48, 255, 255, 255, 255, 200, 129, 148, 64, 255, 255, 255,
    255, 202, 77, 161, 176, 255, 255, 255, 255, 202, 238, 134, 192, 255, 255, 255, 255, 206, 77,
    255, 48, 255, 255, 255, 255, 206, 176, 237, 192, 255, 255, 255, 255, 211, 41, 53, 176, 255,
    255, 255, 255, 212, 67, 100, 192, 255, 255, 255, 255, 244, 61, 8, 48, 255, 255, 255, 255, 244,
    159, 246, 192, 255, 255, 255, 255, 245, 5, 108, 48, 255, 255, 255, 255, 246, 50, 16, 64, 255,
    255, 255, 255, 246, 230, 159, 176, 255, 255, 255, 255, 248, 19, 67, 192, 255, 255, 255, 255,
    248, 199, 211, 48, 255, 255, 255, 255, 249, 244, 119, 64, 255, 255, 255, 255, 250, 211, 54,
    176, 255, 255, 255, 255, 251, 195, 53, 192, 255, 255, 255, 255, 252, 188, 83, 48, 255, 255,
    255, 255, 253, 172, 82, 64, 255, 255, 255, 255, 254, 156, 53, 48, 255, 255, 255, 255, 255,
    140, 52, 64, 0, 0, 0, 0, 7, 163, 74, 176, 0, 0, 0, 0, 8, 36, 111, 160, 0, 0, 0, 0, 35, 148,
    181, 176, 0, 0, 0, 0, 36, 16, 148, 160, 0, 0, 0, 0, 37, 55, 242, 176, 0, 0, 0, 0, 37, 240,
    118, 160, 0, 0, 0, 0, 39, 33, 15, 48, 0, 0, 0, 0, 39, 208, 88, 160, 0, 0, 0, 0, 41, 0, 241,
    48, 0, 0, 0, 0, 41, 176, 58, 160, 0, 0, 0, 0, 42, 224, 211, 48, 0, 0, 0, 0, 43, 153, 87, 32,
    0, 0, 0, 0, 55, 246, 198, 176, 0, 0, 0, 0, 56, 191, 42, 176, 0, 0, 0, 0, 64, 187, 241, 48, 0,
    0, 0, 0, 64, 213, 11, 192, 0, 0, 0, 0, 71, 119, 9, 176, 0, 0, 0, 0, 71, 220, 127, 32, 1, 2, 3,
    2, 3, 2, 3, 2, 3, 2, 3, 2, 3, 2, 3, 2, 3, 2, 3, 2, 3, 2, 3, 2, 3, 2, 3, 2, 3, 2, 3, 2, 3, 2,
    3, 2, 3, 2, 3, 2, 3, 2, 5, 4, 5, 4, 5, 4, 5, 4, 5, 4, 5, 4, 5, 3, 5, 2, 5, 4, 5, 255, 255,
    191, 28, 0, 0, 255, 255, 195, 208, 0, 4, 255, 255, 199, 192, 0, 8, 255, 255, 213, 208, 1, 12,
    255, 255, 227, 224, 1, 16, 255, 255, 213, 208, 0, 12, 76, 77, 84, 0, 67, 77, 84, 0, 45, 48,
    52, 0, 45, 48, 51, 0, 45, 48, 50, 0, 10, 60, 45, 48, 51, 62, 51, 10,
];

/// `America/Argentina/Salta`.
#[verifier::opaque]
pub const AMERICA_ARGENTINA_SALTA: [u8; 690] = [
    84, 90, 105, 102, 50, 0, 0, 0, 0, 0, 0, 0, 0, 0, 0, 0, 0, 0, 0, 0, 0, 0, 0, 0, 0, 0, 0, 0, 0,
    0, 0, 0, 0, 0, 0, 0, 0, 0, 0, 1, 0, 0, 0, 1, 0, 0, 0, 0, 0, 0, 0, 84, 90, 105, 102, 50, 0, 0,
    0, 0, 0, 0, 0, 0, 0, 0, 0, 0, 0, 0, 0, 0, 0, 0, 0, 0, 0, 0, 0, 0, 0, 0, 0, 0, 0, 0, 59, 0, 0,
    0, 6, 0, 0, 0, 20, 255, 255, 255, 255, 114, 156, 174, 212, 255, 255, 255, 255, 162, 146, 143,
    48, 255, 255, 255, 255, 182, 123, 82, 64, 255, 255, 255, 255, 183, 26, 201, 176, 255, 255,
    255, 255, 184, 30, 143, 64, 255, 255, 255, 255, 184, 212, 112, 48, 255, 255, 255, 255, 186,
    23, 125, 192, 255, 255, 255, 255, 186, 181, 163, 176, 255, 255, 255, 255, 187, 248, 177, 64,
    255, 255, 255, 255, 188, 150, 215, 48, 255, 255, 255, 255, 189, 217, 228, 192, 255, 255, 255,
    255, 190, 120, 10, 176, 255, 255, 255, 255, 191, 187, 24, 64, 255, 255, 255, 255, 192, 90,
    143, 176, 255, 255, 255, 255, 193, 157, 157, 64, 255, 255, 255, 255, 194, 59, 195, 48, 255,
    255, 255, 255, 195, 126, 208, 192, 255, 255, 255, 255, 196, 28, 246, 176, 255, 255, 255, 255,
    197, 96, 4, 64, 255, 255, 255, 255, 197, 254, 42, 48, 255, 255, 255, 255, 199, 65, 55, 192,
    255, 255, 255, 255, 199, 224, 175, 48, 255, 255, 255, 255, 200, 129, 148, 64, 255, 255, 255,
    255, 202, 77, 161, 176, 255, 255, 255, 255, 202, 238, 134, 192, 255, 255, 255, 255, 206, 77,
    255, 48, 255, 255, 255, 255, 206, 176, 237, 192, 255, 255, 255, 255, 211, 41, 53, 176, 255,
    255, 255, 255, 212, 67, 100, 192, 255, 255, 255, 255, 244, 61, 8, 48, 255, 255, 255, 255, 244,
    159, 246, 192, 255, 255, 255, 255, 245, 5, 108, 48, 255, 255, 255, 255, 246, 50, 16, 64, 255,
    255, 255, 255, 246, 230, 159, 176, 255, 255, 255, 255, 248, 19, 67, 192, 255, 255, 255, 255,
    248, 199, 211, 48, 255, 255, 255, 255, 249, 244, 119, 64, 255, 255, 255, 255, 250, 211, 54,
    176, 255, 255, 255, 255, 251, 195, 53, 192, 255, 255, 255, 255, 252, 188, 83, 48, 255, 255,
    255, 255, 253, 172, 82, 64, 255, 255, 255, 255, 254, 156, 53, 48, 255, 255, 255, 255, 255,
    140, 52, 64, 0, 0, 0, 0, 7, 163, 74, 176, 0, 0, 0, 0, 8, 36, 111, 160, 0, 0, 0, 0, 35, 148,
    181, 176, 0, 0, 0, 0, 36, 16, 148, 160, 0, 0, 0, 0, 37, 55, 242, 176, 0, 0, 0, 0, 37, 240,
    118, 160, 0, 0, 0, 0, 39, 33, 15, 48, 0, 0, 0, 0, 39, 208, 88, 160, 0, 0, 0, 0, 41, 0, 255,
    64, 0, 0, 0, 0, 41, 176, 58, 160, 0, 0, 0, 0, 42, 224, 211, 48, 0, 0, 0, 0, 43, 153, 87, 32,
    0, 0, 0, 0, 55, 246, 198, 176, 0, 0, 0, 0, 56, 191, 42, 176, 0, 0, 0, 0, 71, 119, 9, 176, 0,
    0, 0, 0, 71, 220, 127, 32, 1, 2, 3, 2, 3, 2, 3, 2, 3, 2, 3, 2, 3, 2, 3, 2, 3, 2, 3, 2, 3, 2,
    3, 2, 3, 2, 3, 2, 3, 2, 3, 2, 3, 2, 3, 2, 3, 2, 3, 2, 3, 2, 5, 4, 5, 4, 5, 4, 5, 4, 2, 4, 5,
    4, 5, 3, 5, 4, 5, 255, 255, 194, 172, 0, 0, 255, 255, 195, 208, 0, 4, 255, 255, 199, 192, 0,
    8, 255, 255, 213, 208, 1, 12, 255, 255, 227, 224, 1, 16, 255, 255, 213, 208, 0, 12, 76, 77,
    84, 0, 67, 77, 84, 0, 45, 48, 52, 0, 45, 48, 51, 0, 45, 48, 50, 0, 10, 60, 45, 48, 51, 62, 51,
    10,
];

/// `America/Argentina/San_Juan`.
#[verifier::opaque]
pub const AMERICA_ARGENTINA_SAN_JUAN: [u8; 717] = [
    84, 90, 105, 102, 50, 0, 0, 0, 0, 0, 0, 0, 0, 0, 0, 0, 0, 0, 0, 0, 0, 0, 0, 0, 0, 0, 0, 0, 0,
    0, 0, 0, 0, 0, 0, 0, 0, 0, 0, 1, 0, 0, 0, 1, 0, 0, 0, 0, 0, 0, 0, 84, 90, 105, 102, 50, 0, 0,
    0, 0, 0, 0, 0, 0, 0, 0, 0, 0, 0, 0, 0, 0, 0, 0, 0, 0, 0, 0, 0, 0, 0, 0, 0, 0, 0, 0, 62, 0, 0,
    0, 6, 0, 0, 0, 20, 255, 255, 255, 255, 114, 156, 177, 188, 255, 255, 255, 255, 162, 146, 143,
    48, 255, 255, 255, 255, 182, 123, 82, 64, 255, 255, 255, 255, 183, 26, 201, 176, 255, 255,
    255, 255, 184, 30, 143, 64, 255, 255, 255, 255, 184, 212, 112, 48, 255, 255, 255, 255, 186,
    23, 125, 192, 255, 255, 255, 255, 186, 181, 163, 176, 255, 255, 255, 255, 187, 248, 177, 64,
    255, 255, 255, 255, 188, 150, 215, 48, 255, 255, 255, 255, 189, 217, 228, 192, 255, 255, 255,
    255, 190, 120, 10, 176, 255, 255, 255, 255, 191, 187, 24, 64, 255, 255, 255, 255, 192, 90,
    143, 176, 255, 255, 255, 255, 193, 157, 157, 64, 255, 255, 255, 255, 194, 59, 195, 48, 255,
    255, 255, 255, 195, 126, 208, 192, 255, 255, 255, 255, 196, 28, 246, 176, 255, 255, 255, 255,
    197, 96, 4, 64, 255, 255, 255, 255, 197, 254, 42, 48, 255, 255, 255, 255, 199, 65, 55, 192,
    255, 255, 255, 255, 199, 224, 175, 48, 255, 255, 255, 255, 200, 129, 148, 64, 255, 255, 255,
    255, 202, 77, 161, 176, 255, 255, 255, 255, 202, 238, 134, 192, 255, 255, 255, 255, 206, 77,
    255, 48, 255, 255, 255, 255, 206, 176, 237, 192, 255, 255, 255, 255, 211, 41, 53, 176, 255,
    255, 255, 255, 212, 67, 100, 192, 255, 255, 255, 255, 244, 61, 8, 48, 255, 255, 255, 255, 244,
    159, 246, 192, 255, 255, 255, 255, 245, 5, 108, 48, 255, 255, 255, 255, 246, 50, 16, 64, 255,
    255, 255, 255, 246, 230, 159, 176, 255, 255, 255, 255, 248, 19, 67, 192, 255, 255, 255, 255,
    248, 199, 211, 48, 255, 255, 255, 255, 249, 244, 119, 64, 255, 255, 255, 255, 250, 211, 54,
    176, 255, 255, 255, 255, 251, 195, 53, 192, 255, 255, 255, 255, 252, 188, 83, 48, 255, 255,
    255, 255, 253, 172, 82, 64, 255, 255, 255, 255, 254, 156, 53, 48, 255, 255, 255, 255, 255,
    140, 52, 64, 0, 0, 0, 0, 7, 163, 74, 176, 0, 0, 0, 0, 8, 36, 111, 160, 0, 0, 0, 0, 35, 148,
    181, 176, 0, 0, 0, 0, 36, 16, 148, 160, 0, 0, 0, 0, 37, 55, 242, 176, 0, 0, 0, 0, 37, 240,
    118, 160, 0, 0, 0, 0, 39, 33, 15, 48, 0, 0, 0, 0, 39, 205, 181, 160, 0, 0, 0, 0, 40, 38, 38,
    64, 0, 0, 0, 0, 41, 0, 241, 48, 0, 0, 0, 0, 41, 176, 58, 160, 0, 0, 0, 0, 42, 224, 211, 48, 0,
    0, 0, 0, 43, 153, 87, 32, 0, 0, 0, 0, 55, 246, 198, 176, 0, 0, 0, 0, 56, 191, 42, 176, 0, 0,
    0, 0, 64, 186, 159, 176, 0, 0, 0, 0, 65, 3, 48, 64, 0, 0, 0, 0, 71, 119, 9, 176, 0, 0, 0, 0,
    71, 220, 127, 32, 1, 2, 3, 2, 3, 2, 3, 2, 3, 2, 3, 2, 3, 2, 3, 2, 3, 2, 3, 2, 3, 2, 3, 2, 3,
    2, 3, 2, 3, 2, 3, 2, 3, 2, 3, 2, 3, 2, 3, 2, 3, 2, 5, 4, 5, 4, 5, 4, 5, 4, 2, 5, 4, 5, 4, 5,
    3, 5, 2, 5, 4, 5, 255, 255, 191, 196, 0, 0, 255, 255, 195, 208, 0, 4, 255, 255, 199, 192, 0,
    8, 255, 255, 213, 208, 1, 12, 255, 255, 227, 224, 1, 16, 255, 255, 213, 208, 0, 12, 76, 77,
    84, 0, 67, 77, 84, 0, 45, 48, 52, 0, 45, 48, 51, 0, 45, 48, 50, 0, 10, 60, 45, 48, 51, 62, 51,
    10,
];

/// `America/Argentina/San_Luis`.
#[verifier::opaque]
pub const AMERICA_ARGENTINA_SAN_LUIS: [u8; 717] = [
    84, 90, 105, 102, 50, 0, 0, 0, 0, 0, 0, 0, 0, 0, 0, 0, 0, 0, 0, 0, 0, 0, 0, 0, 0, 0, 0, 0, 0,
    0, 0, 0, 0, 0, 0, 0, 0, 0, 0, 1, 0, 0, 0, 1, 0, 0, 0, 0, 0, 0, 0, 84, 90, 105, 102, 50, 0, 0,
    0, 0, 0, 0, 0, 0, 0, 0, 0, 0, 0, 0, 0, 0, 0, 0, 0, 0, 0, 0, 0, 0, 0, 0, 0, 0, 0, 0, 62, 0, 0,
    0, 6, 0, 0, 0, 20, 255, 255, 255, 255, 114, 156, 175, 180, 255, 255, 255, 255, 162, 146, 143,
    48, 255, 255, 255, 255, 182, 123, 82, 64, 255, 255, 255, 255, 183, 26, 201, 176, 255, 255,
    255, 255, 184, 30, 143, 64, 255, 255, 255, 255, 184, 212, 112, 48, 255, 255, 255, 255, 186,
    23, 125, 192, 255, 255, 255, 255, 186, 181, 163, 176, 255, 255, 255, 255, 187, 248, 177, 64,
    255, 255, 255, 255, 188, 150, 215, 48, 255, 255, 255, 255, 189, 217, 228, 192, 255, 255, 255,
    255, 190, 120, 10, 176, 255, 255, 255, 255, 191, 187, 24, 64, 255, 255, 255, 255, 192, 90,
    143, 176, 255, 255, 255, 255, 193, 157, 157, 64, 255, 255, 255, 255, 194, 59, 195, 48, 255,
    255, 255, 255, 195, 126, 208, 192, 255, 255, 255, 255, 196, 28, 246, 176, 255, 255, 255, 255,
    197, 96, 4, 64, 255, 255, 255, 255, 197, 254, 42, 48, 255, 255, 255, 255, 199, 65, 55, 192,
    255, 255, 255, 255, 199, 224, 175, 48, 255, 255, 255, 255, 200, 129, 148, 64, 255, 255, 255,
    255, 202, 77, 161, 176, 255, 255, 255, 255, 202, 238, 134, 192, 255, 255, 255, 255, 206, 77,
    255, 48, 255, 255, 255, 255, 206, 176, 237, 192, 255, 255, 255, 255, 211, 41, 53, 176, 255,
    255, 255, 255, 212, 67, 100, 192, 255, 255, 255, 255, 244, 61, 8, 48, 255, 255, 255, 255, 244,
    159, 246, 192, 255, 255, 255, 255, 245, 5, 108, 48, 255, 255, 255, 255, 246, 50, 16, 64, 255,
    255, 255, 255, 246, 230, 159, 176, 255, 255, 255, 255, 248, 19, 67, 192, 255, 255, 255, 255,
    248, 199, 211, 48, 255, 255, 255, 255, 249, 244, 119, 64, 255, 255, 255, 255, 250, 211, 54,
    176, 255, 255, 255, 255, 251, 195, 53, 192, 255, 255, 255, 255, 252, 188, 83, 48, 255, 255,
    255, 255, 253, 172, 82, 64, 255, 255, 255, 255, 254, 156, 53, 48, 255, 255, 255, 255, 255,
    140, 52, 64, 0, 0, 0, 0, 7, 163, 74, 176, 0, 0, 0, 0, 8, 36, 111, 160, 0, 0, 0, 0, 35, 148,
    181, 176, 0, 0, 0, 0, 36, 16, 148, 160, 0, 0, 0, 0, 37, 55, 242, 176, 0, 0, 0, 0, 37, 253,
    165, 160, 0, 0, 0, 0, 39, 25, 52, 64, 0, 0, 0, 0, 39, 205, 195, 176, 0, 0, 0, 0, 40, 71, 27,
    192, 0, 0, 0, 0, 55, 246, 198, 176, 0, 0, 0, 0, 56, 191, 42, 176, 0, 0, 0, 0, 64, 186, 159,
    176, 0, 0, 0, 0, 65, 3, 48, 64, 0, 0, 0, 0, 71, 119, 9, 176, 0, 0, 0, 0, 71, 147, 252, 160, 0,
    0, 0, 0, 71, 211, 82, 176, 0, 0, 0, 0, 72, 241, 118, 64, 0, 0, 0, 0, 73, 179, 52, 176, 0, 0,
    0, 0, 74, 209, 88, 64, 1, 2, 3, 2, 3, 2, 3, 2, 3, 2, 3, 2, 3, 2, 3, 2, 3, 2, 3, 2, 3, 2, 3, 2,
    3, 2, 3, 2, 3, 2, 3, 2, 3, 2, 3, 2, 3, 2, 3, 2, 3, 2, 5, 4, 5, 4, 5, 4, 2, 3, 2, 5, 3, 5, 2,
    5, 4, 3, 2, 3, 2, 5, 255, 255, 193, 204, 0, 0, 255, 255, 195, 208, 0, 4, 255, 255, 199, 192,
    0, 8, 255, 255, 213, 208, 1, 12, 255, 255, 227, 224, 1, 16, 255, 255, 213, 208, 0, 12, 76, 77,
    84, 0, 67, 77, 84, 0, 45, 48, 52, 0, 45, 48, 51, 0, 45, 48, 50, 0, 10, 60, 45, 48, 51, 62, 51,
    10,
];

/// `America/Argentina/Tucuman`.
#[verifier::opaque]
pub const AMERICA_ARGENTINA_TUCUMAN: [u8; 726] = [
    84, 90, 105, 102, 50, 0, 0, 0, 0, 0, 0, 0, 0, 0, 0, 0, 0, 0, 0, 0, 0, 0, 0, 0, 0, 0, 0, 0, 0,
    0, 0, 0, 0, 0, 0, 0, 0, 0, 0, 1, 0, 0, 0, 1, 0, 0, 0, 0, 0, 0, 0, 84, 90, 105, 102, 50, 0, 0,
    0, 0, 0, 0, 0, 0, 0, 0, 0, 0, 0, 0, 0, 0, 0, 0, 0, 0, 0, 0, 0, 0, 0, 0, 0, 0, 0, 0, 63, 0, 0,
    0, 6, 0, 0, 0, 20, 255, 255, 255, 255, 114, 156, 174, 164, 255, 255, 255, 255, 162, 146, 143,
    48, 255, 255, 255, 255, 182, 123, 82, 64, 255, 255, 255, 255, 183, 26, 201, 176, 255, 255,
    255, 255, 184, 30, 143, 64, 255, 255, 255, 255, 184, 212, 112, 48, 255, 255, 255, 255, 186,
    23, 125, 192, 255, 255, 255, 255, 186, 181, 163, 176, 255, 255, 255, 255, 187, 248, 177, 64,
    255, 255, 255, 255, 188, 150, 215, 48, 255, 255, 255, 255, 189, 217, 228, 192, 255, 255, 255,
    255, 190, 120, 10, 176, 255, 255, 255, 255, 191, 187, 24, 64, 255, 255, 255, 255, 192, 90,
    143, 176, 255, 255, 255, 255, 193, 157, 157, 64, 255, 255, 255, 255, 194, 59, 195, 48, 255,
    255, 255, 255, 195, 126, 208, 192, 255, 255, 255, 255, 196, 28, 246, 176, 255, 255, 255, 255,
    197, 96, 4, 64, 255, 255, 255, 255, 197, 254, 42, 48, 255, 255, 255, 255, 199, 65, 55, 192,
    255, 255, 255, 255, 199, 224, 175, 48, 255, 255, 255, 255, 200, 129, 148, 64, 255, 255, 255,
    255, 202, 77, 161, 176, 255, 255, 255, 255, 202, 238, 134, 192, 255, 255, 255, 255, 206, 77,
    255, 48, 255, 255, 255, 255, 206, 176, 237, 192, 255, 255, 255, 255, 211, 41, 53, 176, 255,
    255, 255, 255, 212, 67, 100, 192, 255, 255, 255, 255, 244, 61, 8, 48, 255, 255, 255, 255, 244,
    159, 246, 192, 255, 255, 255, 255, 245, 5, 108, 48, 255, 255, 255, 255, 246, 50, 16, 64, 255,
    255, 255, 255, 246, 230, 159, 176, 255, 255, 255, 255, 248, 19, 67, 192, 255, 255, 255, 255,
    248, 199, 211, 48, 255, 255, 255, 255, 249, 244, 119, 64, 255, 255, 255, 255, 250, 211, 54,
    176, 255, 255, 255, 255, 251, 195, 53, 192, 255, 255, 255, 255, 252, 188, 83, 48, 255, 255,
    255, 255, 253, 172, 82, 64, 255, 255, 255, 255, 254, 156, 53, 48, 255, 255, 255, 255, 255,
    140, 52, 64, 0, 0, 0, 0, 7, 163, 74, 176, 0, 0, 0, 0, 8, 36, 111, 160, 0, 0, 0, 0, 35, 148,
    181, 176, 0, 0, 0, 0, 36, 16, 148, 160, 0, 0, 0, 0, 37, 55, 242, 176, 0, 0, 0, 0, 37, 240,
    118, 160, 0, 0, 0, 0, 39, 33, 15, 48, 0, 0, 0, 0, 39, 208, 88, 160, 0, 0, 0, 0, 41, 0, 255,
    64, 0, 0, 0, 0, 41, 176, 58, 160, 0, 0, 0, 0, 42, 224, 211, 48, 0, 0, 0, 0, 43, 153, 87, 32,
    0, 0, 0, 0, 55, 246, 198, 176, 0, 0, 0, 0, 56, 191, 42, 176, 0, 0, 0, 0, 64, 187, 241, 48, 0,
    0, 0, 0, 64, 203, 209, 64, 0, 0, 0, 0, 71, 119, 9, 176, 0, 0, 0, 0, 71, 220, 127, 32, 0, 0, 0,
    0, 72, 250, 162, 176, 0, 0, 0, 0, 73, 188, 97, 32, 1, 2, 3, 2, 3, 2, 3, 2, 3, 2, 3, 2, 3, 2,
    3, 2, 3, 2, 3, 2, 3, 2, 3, 2, 3, 2, 3, 2, 3, 2, 3, 2, 3, 2, 3, 2, 3, 2, 3, 2, 3, 2, 5, 4, 5,
    4, 5, 4, 5, 4, 2, 4, 5, 4, 5, 3, 5, 2, 5, 4, 5, 4, 5, 255, 255, 194, 220, 0, 0, 255, 255, 195,
    208, 0, 4, 255, 255, 199, 192, 0, 8, 255, 255, 213, 208, 1, 12, 255, 255, 227, 224, 1, 16,
    255, 255, 213, 208, 0, 12, 76, 77, 84, 0, 67, 77, 84, 0, 45, 48, 52, 0, 45, 48, 51, 0, 45, 48,
    50, 0, 10, 60, 45, 48, 51, 62, 51, 10,
];

/// `America/Argentina/Ushuaia`.
#[verifier::opaque]
pub const AMERICA_ARGENTINA_USHUAIA: [u8; 708] = [
    84, 90, 105, 102, 50, 0, 0, 0, 0, 0, 0, 0, 0, 0, 0, 0, 0, 0, 0, 0, 0, 0, 0, 0, 0, 0, 0, 0, 0,
    0, 0, 0, 0, 0, 0, 0, 0, 0, 0, 1, 0, 0, 0, 1, 0, 0, 0, 0, 0, 0, 0, 84, 90, 105, 102, 50, 0, 0,
    0, 0, 0, 0, 0, 0, 0, 0, 0, 0, 0, 0, 0, 0, 0, 0, 0, 0, 0, 0, 0, 0, 0, 0, 0, 0, 0, 0, 61, 0, 0,
    0, 6, 0, 0, 0, 20, 255, 255, 255, 255, 114, 156, 177, 136, 255, 255, 255, 255, 162, 146, 143,
    48, 255, 255, 255, 255, 182, 123, 82, 64, 255, 255, 255, 255, 183, 26, 201, 176, 255, 255,
    255, 255, 184, 30, 143, 64, 255, 255, 255, 255, 184, 212, 112, 48, 255, 255, 255, 255, 186,
    23, 125, 192, 255, 255, 255, 255, 186, 181, 163, 176, 255, 255, 255, 255, 187, 248, 177, 64,
    255, 255, 255, 255, 188, 150, 215, 48, 255, 255, 255, 255, 189, 217, 228, 192, 255, 255, 255,
    255, 190, 120, 10, 176, 255, 255, 255, 255, 191, 187, 24, 64, 255, 255, 255, 255, 192, 90,
    143, 176, 255, 255, 255, 255, 193, 157, 157, 64, 255, 255, 255, 255, 194, 59, 195, 48, 255,
    255, 255, 255, 195, 126, 208, 192, 255, 255, 255, 255, 196, 28, 246, 176, 255, 255, 255, 255,
    197, 96, 4, 64, 255, 255, 255, 255, 197, 254, 42, 48, 255, 255, 255, 255, 199, 65, 55, 192,
    255, 255, 255, 255, 199, 224, 175, 48, 255, 255, 255, 255, 200, 129, 148, 64, 255, 255, 255,
    255, 202, 77, 161, 176, 255, 255, 255, 255, 202, 238, 134, 192, 255, 255, 255, 255, 206, 77,
    255, 48, 255, 255, 255, 255, 206, 176, 237, 192, 255, 255, 255, 255, 211, 41, 53, 176, 255,
    255, 255, 255, 212, 67, 100, 192, 255, 255, 255, 255, 244, 61, 8, 48, 255, 255, 255, 255, 244,
    159, 246, 192, 255, 255, 255, 255, 245, 5, 108, 48, 255, 255, 255, 255, 246, 50, 16, 64, 255,
    255, 255, 255, 246, 230, 159, 176, 255, 255, 255, 255, 248, 19, 67, 192, 255, 255, 255, 255,
    248, 199, 211, 48, 255, 255, 255, 255, 249, 244, 119, 64, 255, 255, 255, 255, 250, 211, 54,
    176, 255, 255, 255, 255, 251, 195, 53, 192, 255, 255, 255, 255, 252, 188, 83, 48, 255, 255,
    255, 255, 253, 172, 82, 64, 255, 255, 255, 255, 254, 156, 53, 48, 255, 255, 255, 255, 255,
    140, 52, 64, 0, 0, 0, 0, 7, 163, 74, 176, 0, 0, 0, 0, 8, 36, 111, 160, 0, 0, 0, 0, 35, 148,
    181, 176, 0, 0, 0, 0, 36, 16, 148, 160, 0, 0, 0, 0, 37, 55, 242, 176, 0, 0, 0, 0, 37, 240,
    118, 160, 0, 0, 0, 0, 39, 33, 15, 48, 0, 0, 0, 0, 39, 208, 88, 160, 0, 0, 0, 0, 41, 0, 241,
    48, 0, 0, 0, 0, 41, 176, 58, 160, 0, 0, 0, 0, 42, 224, 211, 48, 0, 0, 0, 0, 43, 153, 87, 32,
    0, 0, 0, 0, 55, 246, 198, 176, 0, 0, 0, 0, 56, 191, 42, 176, 0, 0, 0, 0, 64, 185, 78, 48, 0,
    0, 0, 0, 64, 213, 11, 192, 0, 0, 0, 0, 71, 119, 9, 176, 0, 0, 0, 0, 71, 220, 127, 32, 1, 2, 3,
    2, 3, 2, 3, 2, 3, 2, 3, 2, 3, 2, 3, 2, 3, 2, 3, 2, 3, 2, 3, 2, 3, 2, 3, 2, 3, 2, 3, 2, 3, 2,
    3, 2, 3, 2, 3, 2, 3, 2, 5, 4, 5, 4, 5, 4, 5, 4, 5, 4, 5, 4, 5, 3, 5, 2, 5, 4, 5, 255, 255,
    191, 248, 0, 0, 255, 255, 195, 208, 0, 4, 255, 255, 199, 192, 0, 8, 255, 255, 213, 208, 1, 12,
    255, 255, 227, 224, 1, 16, 255, 255, 213, 208, 0, 12, 76, 77, 84, 0, 67, 77, 84, 0, 45, 48,
    52, 0, 45, 48, 51, 0, 45, 48, 50, 0, 10, 60, 45, 48, 51, 62, 51, 10,
];

/// `America/Asuncion`.
#[verifier::opaque]
pub const AMERICA_ASUNCION: [u8; 1085] = [
    84, 90, 105, 102, 50, 0, 0, 0, 0, 0, 0, 0, 0, 0, 0, 0, 0, 0, 0, 0, 0, 0, 0, 0, 0, 0, 0, 0, 0,
    0, 0, 0, 0, 0, 0, 0, 0, 0, 0, 1, 0, 0, 0, 1, 0, 0, 0, 0, 0, 0, 0, 84, 90, 105, 102, 50, 0, 0,
    0, 0, 0, 0, 0, 0, 0, 0, 0, 0, 0, 0, 0, 0, 0, 0, 0, 0, 0, 0, 0, 0, 0, 0, 0, 0, 0, 0, 104, 0, 0,
    0, 5, 0, 0, 0, 16, 255, 255, 255, 255, 105, 135, 17, 144, 255, 255, 255, 255, 184, 23, 245,
    144, 0, 0, 0, 0, 5, 43, 218, 64, 0, 0, 0, 0, 7, 252, 240, 176, 0, 0, 0, 0, 10, 207, 116, 192,
    0, 0, 0, 0, 11, 151, 202, 176, 0, 0, 0, 0, 12, 177, 249, 192, 0, 0, 0, 0, 13, 120, 254, 48, 0,
    0, 0, 0, 14, 147, 45, 64, 0, 0, 0, 0, 15, 90, 49, 176, 0, 0, 0, 0, 16, 116, 96, 192, 0, 0, 0,
    0, 17, 100, 67, 176, 0, 0, 0, 0, 18, 85, 148, 64, 0, 0, 0, 0, 19, 70, 200, 176, 0, 0, 0, 0,
    20, 56, 25, 64, 0, 0, 0, 0, 21, 39, 252, 48, 0, 0, 0, 0, 22, 25, 76, 192, 0, 0, 0, 0, 23, 9,
    47, 176, 0, 0, 0, 0, 23, 250, 128, 64, 0, 0, 0, 0, 24, 234, 99, 48, 0, 0, 0, 0, 25, 219, 179,
    192, 0, 0, 0, 0, 26, 204, 232, 48, 0, 0, 0, 0, 27, 190, 56, 192, 0, 0, 0, 0, 28, 174, 27, 176,
    0, 0, 0, 0, 29, 159, 108, 64, 0, 0, 0, 0, 30, 143, 79, 48, 0, 0, 0, 0, 31, 128, 159, 192, 0,
    0, 0, 0, 32, 112, 130, 176, 0, 0, 0, 0, 33, 97, 211, 64, 0, 0, 0, 0, 34, 83, 7, 176, 0, 0, 0,
    0, 35, 68, 88, 64, 0, 0, 0, 0, 36, 52, 59, 48, 0, 0, 0, 0, 37, 65, 59, 64, 0, 0, 0, 0, 38, 21,
    110, 176, 0, 0, 0, 0, 39, 6, 191, 64, 0, 0, 0, 0, 39, 246, 162, 48, 0, 0, 0, 0, 40, 238, 138,
    64, 0, 0, 0, 0, 41, 176, 72, 176, 0, 0, 0, 0, 42, 207, 189, 192, 0, 0, 0, 0, 43, 185, 9, 48,
    0, 0, 0, 0, 44, 171, 171, 64, 0, 0, 0, 0, 45, 112, 12, 176, 0, 0, 0, 0, 46, 140, 222, 192, 0,
    0, 0, 0, 47, 79, 238, 176, 0, 0, 0, 0, 48, 110, 18, 64, 0, 0, 0, 0, 49, 54, 104, 48, 0, 0, 0,
    0, 50, 87, 46, 192, 0, 0, 0, 0, 51, 15, 178, 176, 0, 0, 0, 0, 52, 55, 16, 192, 0, 0, 0, 0, 52,
    248, 207, 48, 0, 0, 0, 0, 54, 22, 242, 192, 0, 0, 0, 0, 54, 225, 235, 176, 0, 0, 0, 0, 55,
    246, 212, 192, 0, 0, 0, 0, 56, 193, 205, 176, 0, 0, 0, 0, 57, 214, 182, 192, 0, 0, 0, 0, 58,
    161, 175, 176, 0, 0, 0, 0, 59, 191, 211, 64, 0, 0, 0, 0, 60, 175, 182, 48, 0, 0, 0, 0, 61,
    113, 144, 192, 0, 0, 0, 0, 62, 143, 152, 48, 0, 0, 0, 0, 63, 90, 173, 64, 0, 0, 0, 0, 64, 111,
    122, 48, 0, 0, 0, 0, 65, 113, 238, 64, 0, 0, 0, 0, 66, 51, 172, 176, 0, 0, 0, 0, 67, 81, 208,
    64, 0, 0, 0, 0, 68, 19, 142, 176, 0, 0, 0, 0, 69, 49, 178, 64, 0, 0, 0, 0, 69, 243, 112, 176,
    0, 0, 0, 0, 71, 26, 206, 192, 0, 0, 0, 0, 71, 211, 82, 176, 0, 0, 0, 0, 72, 250, 176, 192, 0,
    0, 0, 0, 73, 179, 52, 176, 0, 0, 0, 0, 74, 218, 146, 192, 0, 0, 0, 0, 75, 193, 59, 48, 0, 0,
    0, 0, 76, 167, 255, 192, 0, 0, 0, 0, 77, 161, 29, 48, 0, 0, 0, 0, 78, 135, 225, 192, 0, 0, 0,
    0, 79, 128, 255, 48, 0, 0, 0, 0, 80, 112, 254, 64, 0, 0, 0, 0, 81, 78, 108, 48, 0, 0, 0, 0,
    82, 80, 224, 64, 0, 0, 0, 0, 83, 46, 78, 48, 0, 0, 0, 0, 84, 48, 194, 64, 0, 0, 0, 0, 85, 14,
    48, 48, 0, 0, 0, 0, 86, 16, 164, 64, 0, 0, 0, 0, 86, 247, 76, 176, 0, 0, 0, 0, 87, 240, 134,
    64, 0, 0, 0, 0, 88, 215, 46, 176, 0, 0, 0, 0, 89, 208, 104, 64, 0, 0, 0, 0, 90, 183, 16, 176,
    0, 0, 0, 0, 91, 185, 132, 192, 0, 0, 0, 0, 92, 150, 242, 176, 0, 0, 0, 0, 93, 153, 102, 192,
    0, 0, 0, 0, 94, 118, 212, 176, 0, 0, 0, 0, 95, 121, 72, 192, 0, 0, 0, 0, 96, 95, 241, 48, 0,
    0, 0, 0, 97, 89, 42, 192, 0, 0, 0, 0, 98, 63, 211, 48, 0, 0, 0, 0, 99, 57, 12, 192, 0, 0, 0,
    0, 100, 31, 181, 48, 0, 0, 0, 0, 101, 24, 238, 192, 0, 0, 0, 0, 101, 255, 151, 48, 0, 0, 0, 0,
    103, 2, 11, 64, 0, 0, 0, 0, 103, 13, 218, 176, 1, 2, 3, 2, 4, 2, 4, 2, 4, 2, 4, 2, 4, 2, 4, 2,
    4, 2, 4, 2, 4, 2, 4, 2, 4, 2, 4, 2, 4, 2, 4, 2, 4, 2, 4, 2, 4, 2, 4, 2, 4, 2, 4, 2, 4, 2, 4,
    2, 4, 2, 4, 2, 4, 2, 4, 2, 4, 2, 4, 2, 4, 2, 4, 2, 4, 2, 4, 2, 4, 2, 4, 2, 4, 2, 4, 2, 4, 2,
    4, 2, 4, 2, 4, 2, 4, 2, 4, 2, 4, 2, 4, 2, 4, 2, 4, 2, 4, 2, 4, 2, 4, 2, 4, 3, 255, 255, 201,
    240, 0, 0, 255, 255, 201, 240, 0, 4, 255, 255, 199, 192, 0, 8, 255, 255, 213, 208, 0, 12, 255,
    255, 213, 208, 1, 12, 76, 77, 84, 0, 65, 77, 84, 0, 45, 48, 52, 0, 45, 48, 51, 0, 10, 60, 45,
    48, 51, 62, 51, 10,
];

/// `America/Bahia`.
#[verifier::opaque]
pub const AMERICA_BAHIA: [u8; 682] = [
    84, 90, 105, 102, 50, 0, 0, 0, 0, 0, 0, 0, 0, 0, 0, 0, 0, 0, 0, 0, 0, 0, 0, 0, 0, 0, 0, 0, 0,
    0, 0, 0, 0, 0, 0, 0, 0, 0, 0, 1, 0, 0, 0, 1, 0, 0, 0, 0, 0, 0, 0, 84, 90, 105, 102, 50, 0, 0,
    0, 0, 0, 0, 0, 0, 0, 0, 0, 0, 0, 0, 0, 0, 0, 0, 0, 0, 0, 0, 0, 0, 0, 0, 0, 0, 0, 0, 61, 0, 0,
    0, 3, 0, 0, 0, 12, 255, 255, 255, 255, 150, 170, 107, 28, 255, 255, 255, 255, 184, 15, 73,
    224, 255, 255, 255, 255, 184, 253, 64, 160, 255, 255, 255, 255, 185, 241, 52, 48, 255, 255,
    255, 255, 186, 222, 116, 32, 255, 255, 255, 255, 218, 56, 174, 48, 255, 255, 255, 255, 218,
    235, 250, 48, 255, 255, 255, 255, 220, 25, 225, 176, 255, 255, 255, 255, 220, 185, 89, 32,
    255, 255, 255, 255, 221, 251, 21, 48, 255, 255, 255, 255, 222, 155, 222, 32, 255, 255, 255,
    255, 223, 221, 154, 48, 255, 255, 255, 255, 224, 84, 51, 32, 255, 255, 255, 255, 244, 151,
    255, 176, 255, 255, 255, 255, 245, 5, 94, 32, 255, 255, 255, 255, 246, 192, 100, 48, 255, 255,
    255, 255, 247, 14, 30, 160, 255, 255, 255, 255, 248, 81, 44, 48, 255, 255, 255, 255, 248, 199,
    197, 32, 255, 255, 255, 255, 250, 10, 210, 176, 255, 255, 255, 255, 250, 168, 248, 160, 255,
    255, 255, 255, 251, 236, 6, 48, 255, 255, 255, 255, 252, 139, 125, 160, 0, 0, 0, 0, 29, 201,
    142, 48, 0, 0, 0, 0, 30, 120, 215, 160, 0, 0, 0, 0, 31, 160, 53, 176, 0, 0, 0, 0, 32, 51, 207,
    160, 0, 0, 0, 0, 33, 129, 105, 48, 0, 0, 0, 0, 34, 11, 200, 160, 0, 0, 0, 0, 35, 88, 16, 176,
    0, 0, 0, 0, 35, 226, 112, 32, 0, 0, 0, 0, 37, 55, 242, 176, 0, 0, 0, 0, 37, 212, 199, 32, 0,
    0, 0, 0, 39, 33, 15, 48, 0, 0, 0, 0, 39, 189, 227, 160, 0, 0, 0, 0, 41, 0, 241, 48, 0, 0, 0,
    0, 41, 148, 139, 32, 0, 0, 0, 0, 42, 234, 13, 176, 0, 0, 0, 0, 43, 107, 50, 160, 0, 0, 0, 0,
    44, 192, 181, 48, 0, 0, 0, 0, 45, 102, 196, 32, 0, 0, 0, 0, 46, 160, 151, 48, 0, 0, 0, 0, 47,
    70, 166, 32, 0, 0, 0, 0, 48, 128, 121, 48, 0, 0, 0, 0, 49, 29, 77, 160, 0, 0, 0, 0, 50, 87,
    32, 176, 0, 0, 0, 0, 51, 6, 106, 32, 0, 0, 0, 0, 52, 56, 84, 48, 0, 0, 0, 0, 52, 248, 193, 32,
    0, 0, 0, 0, 54, 32, 31, 48, 0, 0, 0, 0, 54, 207, 104, 160, 0, 0, 0, 0, 55, 246, 198, 176, 0,
    0, 0, 0, 56, 184, 133, 32, 0, 0, 0, 0, 57, 223, 227, 48, 0, 0, 0, 0, 58, 143, 44, 160, 0, 0,
    0, 0, 59, 200, 255, 176, 0, 0, 0, 0, 60, 111, 14, 160, 0, 0, 0, 0, 61, 196, 145, 48, 0, 0, 0,
    0, 62, 78, 240, 160, 0, 0, 0, 0, 78, 154, 72, 176, 0, 0, 0, 0, 79, 73, 146, 32, 2, 1, 2, 1, 2,
    1, 2, 1, 2, 1, 2, 1, 2, 1, 2, 1, 2, 1, 2, 1, 2, 1, 2, 1, 2, 1, 2, 1, 2, 1, 2, 1, 2, 1, 2, 1,
    2, 1, 2, 1, 2, 1, 2, 1, 2, 1, 2, 1, 2, 1, 2, 1, 2, 1, 2, 1, 2, 1, 2, 1, 2, 255, 255, 219, 228,
    0, 0, 255, 255, 227, 224, 1, 4, 255, 255, 213, 208, 0, 8, 76, 77, 84, 0, 45, 48, 50, 0, 45,
    48, 51, 0, 10, 60, 45, 48, 51, 62, 51, 10,
];

/// `America/Bahia_Banderas`.
#[verifier::opaque]
pub const AMERICA_BAHIA_BANDERAS: [u8; 700] = [
    84, 90, 105, 102, 50, 0, 0, 0, 0, 0, 0, 0, 0, 0, 0, 0, 0, 0, 0, 0, 0, 0, 0, 0, 0, 0, 0, 0, 0,
    0, 0, 0, 0, 0, 0, 0, 0, 0, 0, 1, 0, 0, 0, 1, 0, 0, 0, 0, 0, 0, 0, 84, 90, 105, 102, 50, 0, 0,
    0, 0, 0, 0, 0, 0, 0, 0, 0, 0, 0, 0, 0, 0, 0, 0, 0, 0, 0, 0, 0, 0, 0, 0, 0, 0, 0, 0, 61, 0, 0,
    0, 5, 0, 0, 0, 20, 255, 255, 255, 255, 165, 182, 232, 112, 255, 255, 255, 255, 175, 241, 43,
    112, 255, 255, 255, 255, 182, 102, 86, 96, 255, 255, 255, 255, 183, 65, 61, 112, 255, 255,
    255, 255, 184, 12, 54, 96, 255, 255, 255, 255, 184, 253, 134, 240, 255, 255, 255, 255, 203,
    234, 113, 96, 0, 0, 0, 0, 49, 103, 132, 16, 0, 0, 0, 0, 50, 115, 22, 128, 0, 0, 0, 0, 51, 71,
    102, 16, 0, 0, 0, 0, 52, 82, 248, 128, 0, 0, 0, 0, 53, 39, 72, 16, 0, 0, 0, 0, 54, 50, 218,
    128, 0, 0, 0, 0, 55, 7, 42, 16, 0, 0, 0, 0, 56, 27, 247, 0, 0, 0, 0, 0, 56, 231, 12, 16, 0, 0,
    0, 0, 57, 251, 217, 0, 0, 0, 0, 0, 58, 245, 18, 144, 0, 0, 0, 0, 59, 182, 209, 0, 0, 0, 0, 0,
    60, 176, 10, 144, 0, 0, 0, 0, 61, 187, 157, 0, 0, 0, 0, 0, 62, 143, 236, 144, 0, 0, 0, 0, 63,
    155, 127, 0, 0, 0, 0, 0, 64, 111, 206, 144, 0, 0, 0, 0, 65, 132, 155, 128, 0, 0, 0, 0, 66, 79,
    176, 144, 0, 0, 0, 0, 67, 100, 125, 128, 0, 0, 0, 0, 68, 47, 146, 144, 0, 0, 0, 0, 69, 68, 95,
    128, 0, 0, 0, 0, 70, 15, 116, 144, 0, 0, 0, 0, 71, 36, 65, 128, 0, 0, 0, 0, 71, 248, 145, 16,
    0, 0, 0, 0, 73, 4, 35, 128, 0, 0, 0, 0, 73, 216, 115, 16, 0, 0, 0, 0, 74, 228, 5, 128, 0, 0,
    0, 0, 75, 184, 85, 16, 0, 0, 0, 0, 76, 205, 19, 240, 0, 0, 0, 0, 77, 152, 41, 0, 0, 0, 0, 0,
    78, 172, 245, 240, 0, 0, 0, 0, 79, 120, 11, 0, 0, 0, 0, 0, 80, 140, 215, 240, 0, 0, 0, 0, 81,
    97, 39, 128, 0, 0, 0, 0, 82, 108, 185, 240, 0, 0, 0, 0, 83, 65, 9, 128, 0, 0, 0, 0, 84, 76,
    155, 240, 0, 0, 0, 0, 85, 32, 235, 128, 0, 0, 0, 0, 86, 44, 125, 240, 0, 0, 0, 0, 87, 0, 205,
    128, 0, 0, 0, 0, 88, 21, 154, 112, 0, 0, 0, 0, 88, 224, 175, 128, 0, 0, 0, 0, 89, 245, 124,
    112, 0, 0, 0, 0, 90, 192, 145, 128, 0, 0, 0, 0, 91, 213, 94, 112, 0, 0, 0, 0, 92, 169, 174, 0,
    0, 0, 0, 0, 93, 181, 64, 112, 0, 0, 0, 0, 94, 137, 144, 0, 0, 0, 0, 0, 95, 149, 34, 112, 0, 0,
    0, 0, 96, 105, 114, 0, 0, 0, 0, 0, 97, 126, 62, 240, 0, 0, 0, 0, 98, 73, 84, 0, 0, 0, 0, 0,
    99, 94, 32, 240, 1, 2, 1, 3, 1, 2, 1, 3, 1, 3, 1, 3, 1, 3, 1, 3, 1, 3, 1, 3, 1, 3, 1, 3, 1, 3,
    1, 3, 1, 3, 1, 3, 1, 3, 1, 4, 2, 4, 2, 4, 2, 4, 2, 4, 2, 4, 2, 4, 2, 4, 2, 4, 2, 4, 2, 4, 2,
    4, 2, 4, 2, 255, 255, 157, 84, 0, 0, 255, 255, 157, 144, 0, 4, 255, 255, 171, 160, 0, 8, 255,
    255, 171, 160, 1, 12, 255, 255, 185, 176, 1, 16, 76, 77, 84, 0, 77, 83, 84, 0, 67, 83, 84, 0,
    77, 68, 84, 0, 67, 68, 84, 0, 10, 67, 83, 84, 54, 10,
];

/// `America/Barbados`.
#[verifier::opaque]
pub const AMERICA_BARBADOS: [u8; 278] = [
    84, 90, 105, 102, 50, 0, 0, 0, 0, 0, 0, 0, 0, 0, 0, 0, 0, 0, 0, 0, 0, 0, 0, 0, 0, 0, 0, 0, 0,
    0, 0, 0, 0, 0, 0, 0, 0, 0, 0, 1, 0, 0, 0, 1, 0, 0, 0, 0, 0, 0, 0, 84, 90, 105, 102, 50, 0, 0,
    0, 0, 0, 0, 0, 0, 0, 0, 0, 0, 0, 0, 0, 0, 0, 0, 0, 0, 0, 0, 0, 0, 0, 0, 0, 0, 0, 0, 15, 0, 0,
    0, 4, 0, 0, 0, 18, 255, 255, 255, 255, 146, 64, 169, 101, 255, 255, 255, 255, 203, 227, 203,
    208, 255, 255, 255, 255, 204, 148, 130, 224, 255, 255, 255, 255, 205, 214, 34, 208, 255, 255,
    255, 255, 206, 124, 77, 224, 255, 255, 255, 255, 207, 155, 166, 208, 255, 255, 255, 255, 208,
    101, 106, 96, 0, 0, 0, 0, 14, 0, 242, 224, 0, 0, 0, 0, 14, 148, 140, 208, 0, 0, 0, 0, 15, 151,
    0, 224, 0, 0, 0, 0, 16, 116, 110, 208, 0, 0, 0, 0, 17, 118, 226, 224, 0, 0, 0, 0, 18, 84, 80,
    208, 0, 0, 0, 0, 19, 95, 255, 96, 0, 0, 0, 0, 20, 48, 62, 80, 2, 1, 2, 1, 2, 3, 2, 1, 2, 1, 2,
    1, 2, 1, 2, 255, 255, 200, 27, 0, 0, 255, 255, 213, 208, 1, 4, 255, 255, 199, 192, 0, 8, 255,
    255, 206, 200, 1, 12, 76, 77, 84, 0, 65, 68, 84, 0, 65, 83, 84, 0, 45, 48, 51, 51, 48, 0, 10,
    65, 83, 84, 52, 10,
];

/// `America/Belem`.
#[verifier::opaque]
pub const AMERICA_BELEM: [u8; 394] = [
    84, 90, 105, 102, 50, 0, 0, 0, 0, 0, 0, 0, 0, 0, 0, 0, 0, 0, 0, 0, 0, 0, 0, 0, 0, 0, 0, 0, 0,
    0, 0, 0, 0, 0, 0, 0, 0, 0, 0, 1, 0, 0, 0, 1, 0, 0, 0, 0, 0, 0, 0, 84, 90, 105, 102, 50, 0, 0,
    0, 0, 0, 0, 0, 0, 0, 0, 0, 0, 0, 0, 0, 0, 0, 0, 0, 0, 0, 0, 0, 0, 0, 0, 0, 0, 0, 0, 29, 0, 0,
    0, 3, 0, 0, 0, 12, 255, 255, 255, 255, 150, 170, 116, 116, 255, 255, 255, 255, 184, 15, 73,
    224, 255, 255, 255, 255, 184, 253, 64, 160, 255, 255, 255, 255, 185, 241, 52, 48, 255, 255,
    255, 255, 186, 222, 116, 32, 255, 255, 255, 255, 218, 56, 174, 48, 255, 255, 255, 255, 218,
    235, 250, 48, 255, 255, 255, 255, 220, 25, 225, 176, 255, 255, 255, 255, 220, 185, 89, 32,
    255, 255, 255, 255, 221, 251, 21, 48, 255, 255, 255, 255, 222, 155, 222, 32, 255, 255, 255,
    255, 223, 221, 154, 48, 255, 255, 255, 255, 224, 84, 51, 32, 255, 255, 255, 255, 244, 151,
    255, 176, 255, 255, 255, 255, 245, 5, 94, 32, 255, 255, 255, 255, 246, 192, 100, 48, 255, 255,
    255, 255, 247, 14, 30, 160, 255, 255, 255, 255, 248, 81, 44, 48, 255, 255, 255, 255, 248, 199,
    197, 32, 255, 255, 255, 255, 250, 10, 210, 176, 255, 255, 255, 255, 250, 168, 248, 160, 255,
    255, 255, 255, 251, 236, 6, 48, 255, 255, 255, 255, 252, 139, 125, 160, 0, 0, 0, 0, 29, 201,
    142, 48, 0, 0, 0, 0, 30, 120, 215, 160, 0, 0, 0, 0, 31, 160, 53, 176, 0, 0, 0, 0, 32, 51, 207,
    160, 0, 0, 0, 0, 33, 129, 105, 48, 0, 0, 0, 0, 34, 11, 200, 160, 2, 1, 2, 1, 2, 1, 2, 1, 2, 1,
    2, 1, 2, 1, 2, 1, 2, 1, 2, 1, 2, 1, 2, 1, 2, 1, 2, 1, 2, 255, 255, 210, 140, 0, 0, 255, 255,
    227, 224, 1, 4, 255, 255, 213, 208, 0, 8, 76, 77, 84, 0, 45, 48, 50, 0, 45, 48, 51, 0, 10, 60,
    45, 48, 51, 62, 51, 10,
];

/// `America/Belize`.
#[verifier::opaque]
pub const AMERICA_BELIZE: [u8; 1045] = [
    84, 90, 105, 102, 50, 0, 0, 0, 0, 0, 0, 0, 0, 0, 0, 0, 0, 0, 0, 0, 0, 0, 0, 0, 0, 0, 0, 0, 0,
    0, 0, 0, 0, 0, 0, 0, 0, 0, 0, 1, 0, 0, 0, 1, 0, 0, 0, 0, 0, 0, 0, 84, 90, 105, 102, 50, 0, 0,
    0, 0, 0, 0, 0, 0, 0, 0, 0, 0, 0, 0, 0, 0, 0, 0, 0, 0, 0, 0, 0, 0, 0, 0, 0, 0, 0, 0, 98, 0, 0,
    0, 6, 0, 0, 0, 26, 255, 255, 255, 255, 147, 94, 217, 176, 255, 255, 255, 255, 159, 159, 59,
    224, 255, 255, 255, 255, 160, 69, 81, 216, 255, 255, 255, 255, 161, 127, 29, 224, 255, 255,
    255, 255, 162, 46, 110, 88, 255, 255, 255, 255, 163, 94, 255, 224, 255, 255, 255, 255, 164,
    14, 80, 88, 255, 255, 255, 255, 165, 62, 225, 224, 255, 255, 255, 255, 165, 238, 50, 88, 255,
    255, 255, 255, 167, 39, 254, 96, 255, 255, 255, 255, 167, 206, 20, 88, 255, 255, 255, 255,
    169, 7, 224, 96, 255, 255, 255, 255, 169, 173, 246, 88, 255, 255, 255, 255, 170, 231, 194, 96,
    255, 255, 255, 255, 171, 151, 18, 216, 255, 255, 255, 255, 172, 199, 164, 96, 255, 255, 255,
    255, 173, 118, 244, 216, 255, 255, 255, 255, 174, 167, 134, 96, 255, 255, 255, 255, 175, 86,
    214, 216, 255, 255, 255, 255, 176, 135, 104, 96, 255, 255, 255, 255, 177, 54, 184, 216, 255,
    255, 255, 255, 178, 112, 132, 224, 255, 255, 255, 255, 179, 22, 154, 216, 255, 255, 255, 255,
    180, 80, 102, 224, 255, 255, 255, 255, 180, 246, 124, 216, 255, 255, 255, 255, 182, 48, 72,
    224, 255, 255, 255, 255, 182, 223, 153, 88, 255, 255, 255, 255, 184, 16, 42, 224, 255, 255,
    255, 255, 184, 191, 123, 88, 255, 255, 255, 255, 185, 240, 12, 224, 255, 255, 255, 255, 186,
    159, 93, 88, 255, 255, 255, 255, 187, 217, 41, 96, 255, 255, 255, 255, 188, 127, 63, 88, 255,
    255, 255, 255, 189, 185, 11, 96, 255, 255, 255, 255, 190, 95, 33, 88, 255, 255, 255, 255, 191,
    152, 237, 96, 255, 255, 255, 255, 192, 63, 3, 88, 255, 255, 255, 255, 193, 120, 207, 96, 255,
    255, 255, 255, 194, 40, 31, 216, 255, 255, 255, 255, 195, 88, 177, 96, 255, 255, 255, 255,
    196, 8, 1, 216, 255, 255, 255, 255, 197, 56, 147, 96, 255, 255, 255, 255, 197, 231, 227, 216,
    255, 255, 255, 255, 199, 33, 175, 224, 255, 255, 255, 255, 199, 199, 197, 216, 255, 255, 255,
    255, 201, 1, 145, 224, 255, 255, 255, 255, 201, 167, 167, 216, 255, 255, 255, 255, 202, 225,
    115, 224, 255, 255, 255, 255, 203, 144, 196, 88, 255, 255, 255, 255, 204, 64, 34, 224, 255,
    255, 255, 255, 210, 35, 244, 112, 255, 255, 255, 255, 210, 198, 113, 80, 255, 255, 255, 255,
    214, 41, 250, 96, 255, 255, 255, 255, 214, 217, 74, 216, 255, 255, 255, 255, 216, 9, 220, 96,
    255, 255, 255, 255, 216, 185, 44, 216, 255, 255, 255, 255, 217, 233, 190, 96, 255, 255, 255,
    255, 218, 153, 14, 216, 255, 255, 255, 255, 219, 210, 218, 224, 255, 255, 255, 255, 220, 120,
    240, 216, 255, 255, 255, 255, 221, 178, 188, 224, 255, 255, 255, 255, 222, 88, 210, 216, 255,
    255, 255, 255, 223, 146, 158, 224, 255, 255, 255, 255, 224, 65, 239, 88, 255, 255, 255, 255,
    225, 114, 128, 224, 255, 255, 255, 255, 226, 33, 209, 88, 255, 255, 255, 255, 227, 82, 98,
    224, 255, 255, 255, 255, 228, 1, 179, 88, 255, 255, 255, 255, 229, 50, 68, 224, 255, 255, 255,
    255, 229, 225, 149, 88, 255, 255, 255, 255, 231, 27, 97, 96, 255, 255, 255, 255, 231, 193,
    119, 88, 255, 255, 255, 255, 232, 251, 67, 96, 255, 255, 255, 255, 233, 161, 89, 88, 255, 255,
    255, 255, 234, 219, 37, 96, 255, 255, 255, 255, 235, 138, 117, 216, 255, 255, 255, 255, 236,
    187, 7, 96, 255, 255, 255, 255, 237, 106, 87, 216, 255, 255, 255, 255, 238, 154, 233, 96, 255,
    255, 255, 255, 239, 74, 57, 216, 255, 255, 255, 255, 240, 132, 5, 224, 255, 255, 255, 255,
    241, 42, 27, 216, 255, 255, 255, 255, 242, 99, 231, 224, 255, 255, 255, 255, 243, 9, 253, 216,
    255, 255, 255, 255, 244, 67, 201, 224, 255, 255, 255, 255, 244, 233, 223, 216, 255, 255, 255,
    255, 246, 35, 171, 224, 255, 255, 255, 255, 246, 210, 252, 88, 255, 255, 255, 255, 248, 3,
    141, 224, 255, 255, 255, 255, 248, 178, 222, 88, 255, 255, 255, 255, 249, 227, 111, 224, 255,
    255, 255, 255, 250, 146, 192, 88, 255, 255, 255, 255, 251, 204, 140, 96, 255, 255, 255, 255,
    252, 114, 162, 88, 0, 0, 0, 0, 7, 98, 219, 96, 0, 0, 0, 0, 7, 185, 208, 80, 0, 0, 0, 0, 24,
    97, 113, 96, 0, 0, 0, 0, 24, 171, 55, 80, 2, 1, 2, 1, 2, 1, 2, 1, 2, 1, 2, 1, 2, 1, 2, 1, 2,
    1, 2, 1, 2, 1, 2, 1, 2, 1, 2, 1, 2, 1, 2, 1, 2, 1, 2, 1, 2, 1, 2, 1, 2, 1, 2, 1, 2, 1, 2, 1,
    2, 3, 4, 2, 1, 2, 1, 2, 1, 2, 1, 2, 1, 2, 1, 2, 1, 2, 1, 2, 1, 2, 1, 2, 1, 2, 1, 2, 1, 2, 1,
    2, 1, 2, 1, 2, 1, 2, 1, 2, 1, 2, 1, 2, 1, 2, 5, 2, 5, 2, 255, 255, 173, 80, 0, 0, 255, 255,
    178, 168, 1, 4, 255, 255, 171, 160, 0, 10, 255, 255, 185, 176, 1, 14, 255, 255, 185, 176, 1,
    18, 255, 255, 185, 176, 1, 22, 76, 77, 84, 0, 45, 48, 53, 51, 48, 0, 67, 83, 84, 0, 67, 87,
    84, 0, 67, 80, 84, 0, 67, 68, 84, 0, 10, 67, 83, 84, 54, 10,
];

/// `America/Boa_Vista`.
#[verifier::opaque]
pub const AMERICA_BOA_VISTA: [u8; 430] = [
    84, 90, 105, 102, 50, 0, 0, 0, 0, 0, 0, 0, 0, 0, 0, 0, 0, 0, 0, 0, 0, 0, 0, 0, 0, 0, 0, 0, 0,
    0, 0, 0, 0, 0, 0, 0, 0, 0, 0, 1, 0, 0, 0, 1, 0, 0, 0, 0, 0, 0, 0, 84, 90, 105, 102, 50, 0, 0,
    0, 0, 0, 0, 0, 0, 0, 0, 0, 0, 0, 0, 0, 0, 0, 0, 0, 0, 0, 0, 0, 0, 0, 0, 0, 0, 0, 0, 33, 0, 0,
    0, 3, 0, 0, 0, 12, 255, 255, 255, 255, 150, 170, 127, 224, 255, 255, 255, 255, 184, 15, 87,
    240, 255, 255, 255, 255, 184, 253, 78, 176, 255, 255, 255, 255, 185, 241, 66, 64, 255, 255,
    255, 255, 186, 222, 130, 48, 255, 255, 255, 255, 218, 56, 188, 64, 255, 255, 255, 255, 218,
    236, 8, 64, 255, 255, 255, 255, 220, 25, 239, 192, 255, 255, 255, 255, 220, 185, 103, 48, 255,
    255, 255, 255, 221, 251, 35, 64, 255, 255, 255, 255, 222, 155, 236, 48, 255, 255, 255, 255,
    223, 221, 168, 64, 255, 255, 255, 255, 224, 84, 65, 48, 255, 255, 255, 255, 244, 152, 13, 192,
    255, 255, 255, 255, 245, 5, 108, 48, 255, 255, 255, 255, 246, 192, 114, 64, 255, 255, 255,
    255, 247, 14, 44, 176, 255, 255, 255, 255, 248, 81, 58, 64, 255, 255, 255, 255, 248, 199, 211,
    48, 255, 255, 255, 255, 250, 10, 224, 192, 255, 255, 255, 255, 250, 169, 6, 176, 255, 255,
    255, 255, 251, 236, 20, 64, 255, 255, 255, 255, 252, 139, 139, 176, 0, 0, 0, 0, 29, 201, 156,
    64, 0, 0, 0, 0, 30, 120, 229, 176, 0, 0, 0, 0, 31, 160, 67, 192, 0, 0, 0, 0, 32, 51, 221, 176,
    0, 0, 0, 0, 33, 129, 119, 64, 0, 0, 0, 0, 34, 11, 214, 176, 0, 0, 0, 0, 55, 246, 212, 192, 0,
    0, 0, 0, 56, 184, 147, 48, 0, 0, 0, 0, 57, 223, 241, 64, 0, 0, 0, 0, 57, 233, 29, 176, 2, 1,
    2, 1, 2, 1, 2, 1, 2, 1, 2, 1, 2, 1, 2, 1, 2, 1, 2, 1, 2, 1, 2, 1, 2, 1, 2, 1, 2, 1, 2, 1, 2,
    255, 255, 199, 32, 0, 0, 255, 255, 213, 208, 1, 4, 255, 255, 199, 192, 0, 8, 76, 77, 84, 0,
    45, 48, 51, 0, 45, 48, 52, 0, 10, 60, 45, 48, 52, 62, 52, 10,
];

/// `America/Bogota`.
#[verifier::opaque]
pub const AMERICA_BOGOTA: [u8; 179] = [
    84, 90, 105, 102, 50, 0, 0, 0, 0, 0, 0, 0, 0, 0, 0, 0, 0, 0, 0, 0, 0, 0, 0, 0, 0, 0, 0, 0, 0,
    0, 0, 0, 0, 0, 0, 0, 0, 0, 0, 1, 0, 0, 0, 1, 0, 0, 0, 0, 0, 0, 0, 84, 90, 105, 102, 50, 0, 0,
    0, 0, 0, 0, 0, 0, 0, 0, 0, 0, 0, 0, 0, 0, 0, 0, 0, 0, 0, 0, 0, 0, 0, 0, 0, 0, 0, 0, 4, 0, 0,
    0, 4, 0, 0, 0, 16, 255, 255, 255, 255, 94, 156, 52, 240, 255, 255, 255, 255, 152, 88, 85, 112,
    0, 0, 0, 0, 42, 3, 115, 80, 0, 0, 0, 0, 43, 116, 137, 64, 1, 3, 2, 3, 255, 255, 186, 144, 0,
    0, 255, 255, 186, 144, 0, 4, 255, 255, 199, 192, 1, 8, 255, 255, 185, 176, 0, 12, 76, 77, 84,
    0, 66, 77, 84, 0, 45, 48, 52, 0, 45, 48, 53, 0, 10, 60, 45, 48, 53, 62, 53, 10,
];

/// `America/Boise`.
#[verifier::opaque]
pub const AMERICA_BOISE: [u8; 999] = [
    84, 90, 105, 102, 50, 0, 0, 0, 0, 0, 0, 0, 0, 0, 0, 0, 0, 0, 0, 0, 0, 0, 0, 0, 0, 0, 0, 0, 0,
    0, 0, 0, 0, 0, 0, 0, 0, 0, 0, 1, 0, 0, 0, 1, 0, 0, 0, 0, 0, 0, 0, 84, 90, 105, 102, 50, 0, 0,
    0, 0, 0, 0, 0, 0, 0, 0, 0, 0, 0, 0, 0, 0, 0, 0, 0, 0, 0, 0, 0, 0, 0, 0, 0, 0, 0, 0, 90, 0, 0,
    0, 7, 0, 0, 0, 28, 255, 255, 255, 255, 94, 4, 26, 192, 255, 255, 255, 255, 158, 166, 72, 160,
    255, 255, 255, 255, 159, 187, 21, 144, 255, 255, 255, 255, 160, 134, 42, 160, 255, 255, 255,
    255, 161, 154, 247, 144, 255, 255, 255, 255, 168, 70, 76, 32, 255, 255, 255, 255, 203, 137,
    12, 144, 255, 255, 255, 255, 210, 35, 244, 112, 255, 255, 255, 255, 210, 97, 24, 0, 255, 255,
    255, 255, 250, 248, 117, 16, 255, 255, 255, 255, 251, 232, 88, 0, 255, 255, 255, 255, 252,
    216, 87, 16, 255, 255, 255, 255, 253, 200, 58, 0, 255, 255, 255, 255, 254, 184, 57, 16, 255,
    255, 255, 255, 255, 168, 28, 0, 0, 0, 0, 0, 0, 152, 27, 16, 0, 0, 0, 0, 1, 135, 254, 0, 0, 0,
    0, 0, 2, 119, 253, 16, 0, 0, 0, 0, 3, 113, 26, 128, 0, 0, 0, 0, 4, 97, 25, 144, 0, 0, 0, 0, 5,
    80, 252, 128, 0, 0, 0, 0, 6, 64, 251, 144, 0, 0, 0, 0, 7, 48, 222, 128, 0, 0, 0, 0, 7, 178,
    31, 144, 0, 0, 0, 0, 9, 16, 192, 128, 0, 0, 0, 0, 9, 173, 177, 16, 0, 0, 0, 0, 10, 240, 162,
    128, 0, 0, 0, 0, 11, 224, 161, 144, 0, 0, 0, 0, 12, 217, 191, 0, 0, 0, 0, 0, 13, 192, 131,
    144, 0, 0, 0, 0, 14, 185, 161, 0, 0, 0, 0, 0, 15, 169, 160, 16, 0, 0, 0, 0, 16, 153, 131, 0,
    0, 0, 0, 0, 17, 137, 130, 16, 0, 0, 0, 0, 18, 121, 101, 0, 0, 0, 0, 0, 19, 105, 100, 16, 0, 0,
    0, 0, 20, 89, 71, 0, 0, 0, 0, 0, 21, 73, 70, 16, 0, 0, 0, 0, 22, 57, 41, 0, 0, 0, 0, 0, 23,
    41, 40, 16, 0, 0, 0, 0, 24, 34, 69, 128, 0, 0, 0, 0, 25, 9, 10, 16, 0, 0, 0, 0, 26, 2, 39,
    128, 0, 0, 0, 0, 26, 242, 38, 144, 0, 0, 0, 0, 27, 226, 9, 128, 0, 0, 0, 0, 28, 210, 8, 144,
    0, 0, 0, 0, 29, 193, 235, 128, 0, 0, 0, 0, 30, 177, 234, 144, 0, 0, 0, 0, 31, 161, 205, 128,
    0, 0, 0, 0, 32, 118, 29, 16, 0, 0, 0, 0, 33, 129, 175, 128, 0, 0, 0, 0, 34, 85, 255, 16, 0, 0,
    0, 0, 35, 106, 204, 0, 0, 0, 0, 0, 36, 53, 225, 16, 0, 0, 0, 0, 37, 74, 174, 0, 0, 0, 0, 0,
    38, 21, 195, 16, 0, 0, 0, 0, 39, 42, 144, 0, 0, 0, 0, 0, 39, 254, 223, 144, 0, 0, 0, 0, 41,
    10, 114, 0, 0, 0, 0, 0, 41, 222, 193, 144, 0, 0, 0, 0, 42, 234, 84, 0, 0, 0, 0, 0, 43, 190,
    163, 144, 0, 0, 0, 0, 44, 211, 112, 128, 0, 0, 0, 0, 45, 158, 133, 144, 0, 0, 0, 0, 46, 179,
    82, 128, 0, 0, 0, 0, 47, 126, 103, 144, 0, 0, 0, 0, 48, 147, 52, 128, 0, 0, 0, 0, 49, 103,
    132, 16, 0, 0, 0, 0, 50, 115, 22, 128, 0, 0, 0, 0, 51, 71, 102, 16, 0, 0, 0, 0, 52, 82, 248,
    128, 0, 0, 0, 0, 53, 39, 72, 16, 0, 0, 0, 0, 54, 50, 218, 128, 0, 0, 0, 0, 55, 7, 42, 16, 0,
    0, 0, 0, 56, 27, 247, 0, 0, 0, 0, 0, 56, 231, 12, 16, 0, 0, 0, 0, 57, 251, 217, 0, 0, 0, 0, 0,
    58, 198, 238, 16, 0, 0, 0, 0, 59, 219, 187, 0, 0, 0, 0, 0, 60, 176, 10, 144, 0, 0, 0, 0, 61,
    187, 157, 0, 0, 0, 0, 0, 62, 143, 236, 144, 0, 0, 0, 0, 63, 155, 127, 0, 0, 0, 0, 0, 64, 111,
    206, 144, 0, 0, 0, 0, 65, 132, 155, 128, 0, 0, 0, 0, 66, 79, 176, 144, 0, 0, 0, 0, 67, 100,
    125, 128, 0, 0, 0, 0, 68, 47, 146, 144, 0, 0, 0, 0, 69, 68, 95, 128, 0, 0, 0, 0, 69, 243, 197,
    16, 2, 1, 2, 1, 2, 5, 3, 4, 5, 6, 5, 6, 5, 6, 5, 6, 5, 6, 5, 6, 5, 6, 5, 6, 5, 6, 5, 6, 5, 6,
    5, 6, 5, 6, 5, 6, 5, 6, 5, 6, 5, 6, 5, 6, 5, 6, 5, 6, 5, 6, 5, 6, 5, 6, 5, 6, 5, 6, 5, 6, 5,
    6, 5, 6, 5, 6, 5, 6, 5, 6, 5, 6, 5, 6, 5, 6, 5, 6, 5, 6, 5, 6, 5, 6, 5, 6, 5, 6, 5, 6, 255,
    255, 147, 15, 0, 0, 255, 255, 157, 144, 1, 4, 255, 255, 143, 128, 0, 8, 255, 255, 171, 160, 1,
    12, 255, 255, 171, 160, 1, 16, 255, 255, 157, 144, 0, 20, 255, 255, 171, 160, 1, 24, 76, 77,
    84, 0, 80, 68, 84, 0, 80, 83, 84, 0, 77, 87, 84, 0, 77, 80, 84, 0, 77, 83, 84, 0, 77, 68, 84,
    0, 10, 77, 83, 84, 55, 77, 68, 84, 44, 77, 51, 46, 50, 46, 48, 44, 77, 49, 49, 46, 49, 46, 48,
    10,
];

/// `America/Cambridge_Bay`.
#[verifier::opaque]
pub const AMERICA_CAMBRIDGE_BAY: [u8; 883] = [
    84, 90, 105, 102, 50, 0, 0, 0, 0, 0, 0, 0, 0, 0, 0, 0, 0, 0, 0, 0, 0, 0, 0, 0, 0, 0, 0, 0, 0,
    0, 0, 0, 0, 0, 0, 0, 0, 0, 0, 1, 0, 0, 0, 1, 0, 0, 0, 0, 0, 0, 0, 84, 90, 105, 102, 50, 0, 0,
    0, 0, 0, 0, 0, 0, 0, 0, 0, 0, 0, 0, 0, 0, 0, 0, 0, 0, 0, 0, 0, 0, 0, 0, 0, 0, 0, 0, 76, 0, 0,
    0, 8, 0, 0, 0, 32, 255, 255, 255, 255, 161, 242, 205, 128, 255, 255, 255, 255, 203, 137, 12,
    144, 255, 255, 255, 255, 210, 35, 244, 112, 255, 255, 255, 255, 210, 97, 24, 0, 0, 0, 0, 0, 4,
    97, 25, 144, 0, 0, 0, 0, 5, 80, 252, 128, 0, 0, 0, 0, 6, 64, 251, 144, 0, 0, 0, 0, 7, 48, 222,
    128, 0, 0, 0, 0, 8, 32, 221, 144, 0, 0, 0, 0, 9, 16, 192, 128, 0, 0, 0, 0, 10, 0, 191, 144, 0,
    0, 0, 0, 10, 240, 162, 128, 0, 0, 0, 0, 11, 224, 161, 144, 0, 0, 0, 0, 12, 217, 191, 0, 0, 0,
    0, 0, 13, 192, 131, 144, 0, 0, 0, 0, 14, 185, 161, 0, 0, 0, 0, 0, 15, 169, 160, 16, 0, 0, 0,
    0, 16, 153, 131, 0, 0, 0, 0, 0, 17, 137, 130, 16, 0, 0, 0, 0, 18, 121, 101, 0, 0, 0, 0, 0, 19,
    105, 100, 16, 0, 0, 0, 0, 20, 89, 71, 0, 0, 0, 0, 0, 21, 73, 70, 16, 0, 0, 0, 0, 22, 57, 41,
    0, 0, 0, 0, 0, 23, 41, 40, 16, 0, 0, 0, 0, 24, 34, 69, 128, 0, 0, 0, 0, 25, 9, 10, 16, 0, 0,
    0, 0, 26, 2, 39, 128, 0, 0, 0, 0, 26, 242, 38, 144, 0, 0, 0, 0, 27, 226, 9, 128, 0, 0, 0, 0,
    28, 210, 8, 144, 0, 0, 0, 0, 29, 193, 235, 128, 0, 0, 0, 0, 30, 177, 234, 144, 0, 0, 0, 0, 31,
    161, 205, 128, 0, 0, 0, 0, 32, 118, 29, 16, 0, 0, 0, 0, 33, 129, 175, 128, 0, 0, 0, 0, 34, 85,
    255, 16, 0, 0, 0, 0, 35, 106, 204, 0, 0, 0, 0, 0, 36, 53, 225, 16, 0, 0, 0, 0, 37, 74, 174, 0,
    0, 0, 0, 0, 38, 21, 195, 16, 0, 0, 0, 0, 39, 42, 144, 0, 0, 0, 0, 0, 39, 254, 223, 144, 0, 0,
    0, 0, 41, 10, 114, 0, 0, 0, 0, 0, 41, 222, 193, 144, 0, 0, 0, 0, 42, 234, 84, 0, 0, 0, 0, 0,
    43, 190, 163, 144, 0, 0, 0, 0, 44, 211, 112, 128, 0, 0, 0, 0, 45, 158, 133, 144, 0, 0, 0, 0,
    46, 179, 82, 128, 0, 0, 0, 0, 47, 126, 103, 144, 0, 0, 0, 0, 48, 147, 52, 128, 0, 0, 0, 0, 49,
    103, 132, 16, 0, 0, 0, 0, 50, 115, 22, 128, 0, 0, 0, 0, 51, 71, 102, 16, 0, 0, 0, 0, 52, 82,
    248, 128, 0, 0, 0, 0, 53, 39, 72, 16, 0, 0, 0, 0, 54, 50, 218, 128, 0, 0, 0, 0, 55, 7, 42, 16,
    0, 0, 0, 0, 56, 27, 247, 0, 0, 0, 0, 0, 56, 230, 254, 0, 0, 0, 0, 0, 57, 251, 202, 240, 0, 0,
    0, 0, 58, 4, 233, 80, 0, 0, 0, 0, 58, 198, 238, 16, 0, 0, 0, 0, 59, 219, 187, 0, 0, 0, 0, 0,
    60, 176, 10, 144, 0, 0, 0, 0, 61, 187, 157, 0, 0, 0, 0, 0, 62, 143, 236, 144, 0, 0, 0, 0, 63,
    155, 127, 0, 0, 0, 0, 0, 64, 111, 206, 144, 0, 0, 0, 0, 65, 132, 155, 128, 0, 0, 0, 0, 66, 79,
    176, 144, 0, 0, 0, 0, 67, 100, 125, 128, 0, 0, 0, 0, 68, 47, 146, 144, 0, 0, 0, 0, 69, 68, 95,
    128, 0, 0, 0, 0, 69, 243, 197, 16, 3, 1, 2, 3, 4, 3, 4, 3, 4, 3, 4, 3, 4, 3, 4, 3, 4, 3, 4, 3,
    4, 3, 4, 3, 4, 3, 4, 3, 4, 3, 4, 3, 4, 3, 4, 3, 4, 3, 4, 3, 4, 3, 4, 3, 4, 3, 4, 3, 4, 3, 4,
    3, 4, 3, 4, 3, 4, 3, 4, 6, 5, 7, 6, 4, 3, 4, 3, 4, 3, 4, 3, 4, 3, 4, 3, 4, 0, 0, 0, 0, 0, 0,
    255, 255, 171, 160, 1, 4, 255, 255, 171, 160, 1, 8, 255, 255, 157, 144, 0, 12, 255, 255, 171,
    160, 1, 16, 255, 255, 185, 176, 1, 20, 255, 255, 171, 160, 0, 24, 255, 255, 185, 176, 0, 28,
    45, 48, 48, 0, 77, 87, 84, 0, 77, 80, 84, 0, 77, 83, 84, 0, 77, 68, 84, 0, 67, 68, 84, 0, 67,
    83, 84, 0, 69, 83, 84, 0, 10, 77, 83, 84, 55, 77, 68, 84, 44, 77, 51, 46, 50, 46, 48, 44, 77,
    49, 49, 46, 49, 46, 48, 10,
];

/// `America/Campo_Grande`.
#[verifier::opaque]
pub const AMERICA_CAMPO_GRANDE: [u8; 952] = [
    84, 90, 105, 102, 50, 0, 0, 0, 0, 0, 0, 0, 0, 0, 0, 0, 0, 0, 0, 0, 0, 0, 0, 0, 0, 0, 0, 0, 0,
    0, 0, 0, 0, 0, 0, 0, 0, 0, 0, 1, 0, 0, 0, 1, 0, 0, 0, 0, 0, 0, 0, 84, 90, 105, 102, 50, 0, 0,
    0, 0, 0, 0, 0, 0, 0, 0, 0, 0, 0, 0, 0, 0, 0, 0, 0, 0, 0, 0, 0, 0, 0, 0, 0, 0, 0, 0, 91, 0, 0,
    0, 3, 0, 0, 0, 12, 255, 255, 255, 255, 150, 170, 122, 52, 255, 255, 255, 255, 184, 15, 87,
    240, 255, 255, 255, 255, 184, 253, 78, 176, 255, 255, 255, 255, 185, 241, 66, 64, 255, 255,
    255, 255, 186, 222, 130, 48, 255, 255, 255, 255, 218, 56, 188, 64, 255, 255, 255, 255, 218,
    236, 8, 64, 255, 255, 255, 255, 220, 25, 239, 192, 255, 255, 255, 255, 220, 185, 103, 48, 255,
    255, 255, 255, 221, 251, 35, 64, 255, 255, 255, 255, 222, 155, 236, 48, 255, 255, 255, 255,
    223, 221, 168, 64, 255, 255, 255, 255, 224, 84, 65, 48, 255, 255, 255, 255, 244, 152, 13, 192,
    255, 255, 255, 255, 245, 5, 108, 48, 255, 255, 255, 255, 246, 192, 114, 64, 255, 255, 255,
    255, 247, 14, 44, 176, 255, 255, 255, 255, 248, 81, 58, 64, 255, 255, 255, 255, 248, 199, 211,
    48, 255, 255, 255, 255, 250, 10, 224, 192, 255, 255, 255, 255, 250, 169, 6, 176, 255, 255,
    255, 255, 251, 236, 20, 64, 255, 255, 255, 255, 252, 139, 139, 176, 0, 0, 0, 0, 29, 201, 156,
    64, 0, 0, 0, 0, 30, 120, 229, 176, 0, 0, 0, 0, 31, 160, 67, 192, 0, 0, 0, 0, 32, 51, 221, 176,
    0, 0, 0, 0, 33, 129, 119, 64, 0, 0, 0, 0, 34, 11, 214, 176, 0, 0, 0, 0, 35, 88, 30, 192, 0, 0,
    0, 0, 35, 226, 126, 48, 0, 0, 0, 0, 37, 56, 0, 192, 0, 0, 0, 0, 37, 212, 213, 48, 0, 0, 0, 0,
    39, 33, 29, 64, 0, 0, 0, 0, 39, 189, 241, 176, 0, 0, 0, 0, 41, 0, 255, 64, 0, 0, 0, 0, 41,
    148, 153, 48, 0, 0, 0, 0, 42, 234, 27, 192, 0, 0, 0, 0, 43, 107, 64, 176, 0, 0, 0, 0, 44, 192,
    195, 64, 0, 0, 0, 0, 45, 102, 210, 48, 0, 0, 0, 0, 46, 160, 165, 64, 0, 0, 0, 0, 47, 70, 180,
    48, 0, 0, 0, 0, 48, 128, 135, 64, 0, 0, 0, 0, 49, 29, 91, 176, 0, 0, 0, 0, 50, 87, 46, 192, 0,
    0, 0, 0, 51, 6, 120, 48, 0, 0, 0, 0, 52, 56, 98, 64, 0, 0, 0, 0, 52, 248, 207, 48, 0, 0, 0, 0,
    54, 32, 45, 64, 0, 0, 0, 0, 54, 207, 118, 176, 0, 0, 0, 0, 55, 246, 212, 192, 0, 0, 0, 0, 56,
    184, 147, 48, 0, 0, 0, 0, 57, 223, 241, 64, 0, 0, 0, 0, 58, 143, 58, 176, 0, 0, 0, 0, 59, 201,
    13, 192, 0, 0, 0, 0, 60, 111, 28, 176, 0, 0, 0, 0, 61, 196, 159, 64, 0, 0, 0, 0, 62, 78, 254,
    176, 0, 0, 0, 0, 63, 146, 12, 64, 0, 0, 0, 0, 64, 46, 224, 176, 0, 0, 0, 0, 65, 135, 6, 64, 0,
    0, 0, 0, 66, 23, 253, 48, 0, 0, 0, 0, 67, 81, 208, 64, 0, 0, 0, 0, 67, 247, 223, 48, 0, 0, 0,
    0, 69, 77, 97, 192, 0, 0, 0, 0, 69, 224, 251, 176, 0, 0, 0, 0, 71, 17, 148, 64, 0, 0, 0, 0,
    71, 183, 163, 48, 0, 0, 0, 0, 72, 250, 176, 192, 0, 0, 0, 0, 73, 151, 133, 48, 0, 0, 0, 0, 74,
    218, 146, 192, 0, 0, 0, 0, 75, 128, 161, 176, 0, 0, 0, 0, 76, 186, 116, 192, 0, 0, 0, 0, 77,
    96, 131, 176, 0, 0, 0, 0, 78, 154, 86, 192, 0, 0, 0, 0, 79, 73, 160, 48, 0, 0, 0, 0, 80, 131,
    115, 64, 0, 0, 0, 0, 81, 32, 71, 176, 0, 0, 0, 0, 82, 99, 85, 64, 0, 0, 0, 0, 83, 0, 41, 176,
    0, 0, 0, 0, 84, 67, 55, 64, 0, 0, 0, 0, 84, 233, 70, 48, 0, 0, 0, 0, 86, 35, 25, 64, 0, 0, 0,
    0, 86, 201, 40, 48, 0, 0, 0, 0, 88, 2, 251, 64, 0, 0, 0, 0, 88, 169, 10, 48, 0, 0, 0, 0, 89,
    226, 221, 64, 0, 0, 0, 0, 90, 136, 236, 48, 0, 0, 0, 0, 91, 222, 110, 192, 0, 0, 0, 0, 92,
    104, 206, 48, 2, 1, 2, 1, 2, 1, 2, 1, 2, 1, 2, 1, 2, 1, 2, 1, 2, 1, 2, 1, 2, 1, 2, 1, 2, 1, 2,
    1, 2, 1, 2, 1, 2, 1, 2, 1, 2, 1, 2, 1, 2, 1, 2, 1, 2, 1, 2, 1, 2, 1, 2, 1, 2, 1, 2, 1, 2, 1,
    2, 1, 2, 1, 2, 1, 2, 1, 2, 1, 2, 1, 2, 1, 2, 1, 2, 1, 2, 1, 2, 1, 2, 1, 2, 1, 2, 1, 2, 1, 2,
    1, 2, 255, 255, 204, 204, 0, 0, 255, 255, 213, 208, 1, 4, 255, 255, 199, 192, 0, 8, 76, 77,
    84, 0, 45, 48, 51, 0, 45, 48, 52, 0, 10, 60, 45, 48, 52, 62, 52, 10,
];

/// `America/Cancun`.
#[verifier::opaque]
pub const AMERICA_CANCUN: [u8; 538] = [
    84, 90, 105, 102, 50, 0, 0, 0, 0, 0, 0, 0, 0, 0, 0, 0, 0, 0, 0, 0, 0, 0, 0, 0, 0, 0, 0, 0, 0,
    0, 0, 0, 0, 0, 0, 0, 0, 0, 0, 1, 0, 0, 0, 1, 0, 0, 0, 0, 0, 0, 0, 84, 90, 105, 102, 50, 0, 0,
    0, 0, 0, 0, 0, 0, 0, 0, 0, 0, 0, 0, 0, 0, 0, 0, 0, 0, 0, 0, 0, 0, 0, 0, 0, 0, 0, 0, 43, 0, 0,
    0, 5, 0, 0, 0, 20, 255, 255, 255, 255, 165, 182, 218, 96, 0, 0, 0, 0, 22, 138, 230, 0, 0, 0,
    0, 0, 24, 119, 204, 208, 0, 0, 0, 0, 49, 103, 118, 0, 0, 0, 0, 0, 50, 115, 8, 112, 0, 0, 0, 0,
    51, 71, 88, 0, 0, 0, 0, 0, 52, 82, 234, 112, 0, 0, 0, 0, 53, 39, 43, 240, 0, 0, 0, 0, 53, 196,
    0, 96, 0, 0, 0, 0, 54, 50, 204, 112, 0, 0, 0, 0, 55, 7, 28, 0, 0, 0, 0, 0, 56, 27, 232, 240,
    0, 0, 0, 0, 56, 230, 254, 0, 0, 0, 0, 0, 57, 251, 202, 240, 0, 0, 0, 0, 58, 245, 4, 128, 0, 0,
    0, 0, 59, 182, 194, 240, 0, 0, 0, 0, 60, 175, 252, 128, 0, 0, 0, 0, 61, 187, 142, 240, 0, 0,
    0, 0, 62, 143, 222, 128, 0, 0, 0, 0, 63, 155, 112, 240, 0, 0, 0, 0, 64, 111, 192, 128, 0, 0,
    0, 0, 65, 132, 141, 112, 0, 0, 0, 0, 66, 79, 162, 128, 0, 0, 0, 0, 67, 100, 111, 112, 0, 0, 0,
    0, 68, 47, 132, 128, 0, 0, 0, 0, 69, 68, 81, 112, 0, 0, 0, 0, 70, 15, 102, 128, 0, 0, 0, 0,
    71, 36, 51, 112, 0, 0, 0, 0, 71, 248, 131, 0, 0, 0, 0, 0, 73, 4, 21, 112, 0, 0, 0, 0, 73, 216,
    101, 0, 0, 0, 0, 0, 74, 227, 247, 112, 0, 0, 0, 0, 75, 184, 71, 0, 0, 0, 0, 0, 76, 205, 19,
    240, 0, 0, 0, 0, 77, 152, 41, 0, 0, 0, 0, 0, 78, 172, 245, 240, 0, 0, 0, 0, 79, 120, 11, 0, 0,
    0, 0, 0, 80, 140, 215, 240, 0, 0, 0, 0, 81, 97, 39, 128, 0, 0, 0, 0, 82, 108, 185, 240, 0, 0,
    0, 0, 83, 65, 9, 128, 0, 0, 0, 0, 84, 76, 155, 240, 0, 0, 0, 0, 84, 205, 221, 0, 1, 2, 1, 3,
    1, 3, 2, 4, 3, 1, 3, 1, 3, 1, 3, 1, 3, 1, 3, 1, 3, 1, 3, 1, 3, 1, 3, 1, 3, 1, 3, 1, 3, 1, 3,
    1, 3, 1, 3, 1, 3, 1, 2, 255, 255, 174, 168, 0, 0, 255, 255, 171, 160, 0, 4, 255, 255, 185,
    176, 0, 8, 255, 255, 185, 176, 1, 12, 255, 255, 199, 192, 1, 16, 76, 77, 84, 0, 67, 83, 84, 0,
    69, 83, 84, 0, 67, 68, 84, 0, 69, 68, 84, 0, 10, 69, 83, 84, 53, 10,
];

/// `America/Caracas`.
#[verifier::opaque]
pub const AMERICA_CARACAS: [u8; 190] = [
    84, 90, 105, 102, 50, 0, 0, 0, 0, 0, 0, 0, 0, 0, 0, 0, 0, 0, 0, 0, 0, 0, 0, 0, 0, 0, 0, 0, 0,
    0, 0, 0, 0, 0, 0, 0, 0, 0, 0, 1, 0, 0, 0, 1, 0, 0, 0, 0, 0, 0, 0, 84, 90, 105, 102, 50, 0, 0,
    0, 0, 0, 0, 0, 0, 0, 0, 0, 0, 0, 0, 0, 0, 0, 0, 0, 0, 0, 0, 0, 0, 0, 0, 0, 0, 0, 0, 5, 0, 0,
    0, 4, 0, 0, 0, 18, 255, 255, 255, 255, 105, 135, 26, 64, 255, 255, 255, 255, 147, 30, 44, 60,
    255, 255, 255, 255, 246, 152, 236, 72, 0, 0, 0, 0, 71, 91, 146, 112, 0, 0, 0, 0, 87, 37, 169,
    112, 1, 2, 3, 2, 3, 255, 255, 193, 64, 0, 0, 255, 255, 193, 68, 0, 4, 255, 255, 192, 184, 0,
    8, 255, 255, 199, 192, 0, 14, 76, 77, 84, 0, 67, 77, 84, 0, 45, 48, 52, 51, 48, 0, 45, 48, 52,
    0, 10, 60, 45, 48, 52, 62, 52, 10,
];

/// `America/Cayenne`.
#[verifier::opaque]
pub const AMERICA_CAYENNE: [u8; 151] = [
    84, 90, 105, 102, 50, 0, 0, 0, 0, 0, 0, 0, 0, 0, 0, 0, 0, 0, 0, 0, 0, 0, 0, 0, 0, 0, 0, 0, 0,
    0, 0, 0, 0, 0, 0, 0, 0, 0, 0, 1, 0, 0, 0, 1, 0, 0, 0, 0, 0, 0, 0, 84, 90, 105, 102, 50, 0, 0,
    0, 0, 0, 0, 0, 0, 0, 0, 0, 0, 0, 0, 0, 0, 0, 0, 0, 0, 0, 0, 0, 0, 0, 0, 0, 0, 0, 0, 2, 0, 0,
    0, 3, 0, 0, 0, 12, 255, 255, 255, 255, 145, 244, 43, 144, 255, 255, 255, 255, 251, 195, 53,
    192, 1, 2, 255, 255, 206, 240, 0, 0, 255, 255, 199, 192, 0, 4, 255, 255, 213, 208, 0, 8, 76,
    77, 84, 0, 45, 48, 52, 0, 45, 48, 51, 0, 10, 60, 45, 48, 51, 62, 51, 10,
];

/// `America/Chicago`.
#[verifier::opaque]
pub const AMERICA_CHICAGO: [u8; 1754] = [
    84, 90, 105, 102, 50, 0, 0, 0, 0, 0, 0, 0, 0, 0, 0, 0, 0, 0, 0, 0, 0, 0, 0, 0, 0, 0, 0, 0, 0,
    0, 0, 0, 0, 0, 0, 0, 0, 0, 0, 1, 0, 0, 0, 1, 0, 0, 0, 0, 0, 0, 0, 84, 90, 105, 102, 50, 0, 0,
    0, 0, 0, 0, 0, 0, 0, 0, 0, 0, 0, 0, 0, 0, 0, 0, 0, 0, 0, 0, 0, 0, 0, 0, 0, 0, 0, 0, 175, 0, 0,
    0, 6, 0, 0, 0, 24, 255, 255, 255, 255, 94, 3, 254, 160, 255, 255, 255, 255, 158, 166, 44, 128,
    255, 255, 255, 255, 159, 186, 249, 112, 255, 255, 255, 255, 160, 134, 14, 128, 255, 255, 255,
    255, 161, 154, 219, 112, 255, 255, 255, 255, 162, 203, 116, 0, 255, 255, 255, 255, 163, 131,
    247, 240, 255, 255, 255, 255, 164, 69, 210, 128, 255, 255, 255, 255, 165, 99, 217, 240, 255,
    255, 255, 255, 166, 83, 217, 0, 255, 255, 255, 255, 167, 21, 151, 112, 255, 255, 255, 255,
    168, 51, 187, 0, 255, 255, 255, 255, 168, 254, 179, 240, 255, 255, 255, 255, 170, 19, 157, 0,
    255, 255, 255, 255, 170, 222, 149, 240, 255, 255, 255, 255, 171, 243, 127, 0, 255, 255, 255,
    255, 172, 190, 119, 240, 255, 255, 255, 255, 173, 211, 97, 0, 255, 255, 255, 255, 174, 158,
    89, 240, 255, 255, 255, 255, 175, 179, 67, 0, 255, 255, 255, 255, 176, 126, 59, 240, 255, 255,
    255, 255, 177, 156, 95, 128, 255, 255, 255, 255, 178, 103, 88, 112, 255, 255, 255, 255, 179,
    124, 65, 128, 255, 255, 255, 255, 180, 71, 58, 112, 255, 255, 255, 255, 181, 92, 35, 128, 255,
    255, 255, 255, 182, 39, 28, 112, 255, 255, 255, 255, 183, 60, 5, 128, 255, 255, 255, 255, 184,
    6, 254, 112, 255, 255, 255, 255, 185, 27, 231, 128, 255, 255, 255, 255, 185, 230, 224, 112,
    255, 255, 255, 255, 187, 5, 4, 0, 255, 255, 255, 255, 187, 198, 194, 112, 255, 255, 255, 255,
    188, 228, 230, 0, 255, 255, 255, 255, 189, 175, 222, 240, 255, 255, 255, 255, 190, 196, 200,
    0, 255, 255, 255, 255, 191, 143, 192, 240, 255, 255, 255, 255, 192, 90, 214, 0, 255, 255, 255,
    255, 193, 176, 60, 112, 255, 255, 255, 255, 194, 132, 140, 0, 255, 255, 255, 255, 195, 79,
    132, 240, 255, 255, 255, 255, 196, 100, 110, 0, 255, 255, 255, 255, 197, 47, 102, 240, 255,
    255, 255, 255, 198, 77, 138, 128, 255, 255, 255, 255, 199, 15, 72, 240, 255, 255, 255, 255,
    200, 45, 108, 128, 255, 255, 255, 255, 200, 248, 101, 112, 255, 255, 255, 255, 202, 13, 78,
    128, 255, 255, 255, 255, 202, 216, 71, 112, 255, 255, 255, 255, 203, 136, 254, 128, 255, 255,
    255, 255, 210, 35, 244, 112, 255, 255, 255, 255, 210, 97, 9, 240, 255, 255, 255, 255, 211,
    117, 243, 0, 255, 255, 255, 255, 212, 64, 235, 240, 255, 255, 255, 255, 213, 85, 213, 0, 255,
    255, 255, 255, 214, 32, 205, 240, 255, 255, 255, 255, 215, 53, 183, 0, 255, 255, 255, 255,
    216, 0, 175, 240, 255, 255, 255, 255, 217, 21, 153, 0, 255, 255, 255, 255, 217, 224, 145, 240,
    255, 255, 255, 255, 218, 254, 181, 128, 255, 255, 255, 255, 219, 192, 115, 240, 255, 255, 255,
    255, 220, 222, 151, 128, 255, 255, 255, 255, 221, 169, 144, 112, 255, 255, 255, 255, 222, 190,
    121, 128, 255, 255, 255, 255, 223, 137, 114, 112, 255, 255, 255, 255, 224, 158, 91, 128, 255,
    255, 255, 255, 225, 105, 84, 112, 255, 255, 255, 255, 226, 126, 61, 128, 255, 255, 255, 255,
    227, 73, 54, 112, 255, 255, 255, 255, 228, 94, 31, 128, 255, 255, 255, 255, 229, 87, 60, 240,
    255, 255, 255, 255, 230, 71, 60, 0, 255, 255, 255, 255, 231, 55, 30, 240, 255, 255, 255, 255,
    232, 39, 30, 0, 255, 255, 255, 255, 233, 23, 0, 240, 255, 255, 255, 255, 234, 7, 0, 0, 255,
    255, 255, 255, 234, 246, 226, 240, 255, 255, 255, 255, 235, 230, 226, 0, 255, 255, 255, 255,
    236, 214, 196, 240, 255, 255, 255, 255, 237, 198, 196, 0, 255, 255, 255, 255, 238, 191, 225,
    112, 255, 255, 255, 255, 239, 175, 224, 128, 255, 255, 255, 255, 240, 159, 195, 112, 255, 255,
    255, 255, 241, 143, 194, 128, 255, 255, 255, 255, 242, 127, 165, 112, 255, 255, 255, 255, 243,
    111, 164, 128, 255, 255, 255, 255, 244, 95, 135, 112, 255, 255, 255, 255, 245, 79, 134, 128,
    255, 255, 255, 255, 246, 63, 105, 112, 255, 255, 255, 255, 247, 47, 104, 128, 255, 255, 255,
    255, 248, 40, 133, 240, 255, 255, 255, 255, 249, 15, 74, 128, 255, 255, 255, 255, 250, 8, 103,
    240, 255, 255, 255, 255, 250, 248, 103, 0, 255, 255, 255, 255, 251, 232, 73, 240, 255, 255,
    255, 255, 252, 216, 73, 0, 255, 255, 255, 255, 253, 200, 43, 240, 255, 255, 255, 255, 254,
    184, 43, 0, 255, 255, 255, 255, 255, 168, 13, 240, 0, 0, 0, 0, 0, 152, 13, 0, 0, 0, 0, 0, 1,
    135, 239, 240, 0, 0, 0, 0, 2, 119, 239, 0, 0, 0, 0, 0, 3, 113, 12, 112, 0, 0, 0, 0, 4, 97, 11,
    128, 0, 0, 0, 0, 5, 80, 238, 112, 0, 0, 0, 0, 6, 64, 237, 128, 0, 0, 0, 0, 7, 48, 208, 112, 0,
    0, 0, 0, 7, 141, 39, 128, 0, 0, 0, 0, 9, 16, 178, 112, 0, 0, 0, 0, 9, 173, 163, 0, 0, 0, 0, 0,
    10, 240, 148, 112, 0, 0, 0, 0, 11, 224, 147, 128, 0, 0, 0, 0, 12, 217, 176, 240, 0, 0, 0, 0,
    13, 192, 117, 128, 0, 0, 0, 0, 14, 185, 146, 240, 0, 0, 0, 0, 15, 169, 146, 0, 0, 0, 0, 0, 16,
    153, 116, 240, 0, 0, 0, 0, 17, 137, 116, 0, 0, 0, 0, 0, 18, 121, 86, 240, 0, 0, 0, 0, 19, 105,
    86, 0, 0, 0, 0, 0, 20, 89, 56, 240, 0, 0, 0, 0, 21, 73, 56, 0, 0, 0, 0, 0, 22, 57, 26, 240, 0,
    0, 0, 0, 23, 41, 26, 0, 0, 0, 0, 0, 24, 34, 55, 112, 0, 0, 0, 0, 25, 8, 252, 0, 0, 0, 0, 0,
    26, 2, 25, 112, 0, 0, 0, 0, 26, 242, 24, 128, 0, 0, 0, 0, 27, 225, 251, 112, 0, 0, 0, 0, 28,
    209, 250, 128, 0, 0, 0, 0, 29, 193, 221, 112, 0, 0, 0, 0, 30, 177, 220, 128, 0, 0, 0, 0, 31,
    161, 191, 112, 0, 0, 0, 0, 32, 118, 15, 0, 0, 0, 0, 0, 33, 129, 161, 112, 0, 0, 0, 0, 34, 85,
    241, 0, 0, 0, 0, 0, 35, 106, 189, 240, 0, 0, 0, 0, 36, 53, 211, 0, 0, 0, 0, 0, 37, 74, 159,
    240, 0, 0, 0, 0, 38, 21, 181, 0, 0, 0, 0, 0, 39, 42, 129, 240, 0, 0, 0, 0, 39, 254, 209, 128,
    0, 0, 0, 0, 41, 10, 99, 240, 0, 0, 0, 0, 41, 222, 179, 128, 0, 0, 0, 0, 42, 234, 69, 240, 0,
    0, 0, 0, 43, 190, 149, 128, 0, 0, 0, 0, 44, 211, 98, 112, 0, 0, 0, 0, 45, 158, 119, 128, 0, 0,
    0, 0, 46, 179, 68, 112, 0, 0, 0, 0, 47, 126, 89, 128, 0, 0, 0, 0, 48, 147, 38, 112, 0, 0, 0,
    0, 49, 103, 118, 0, 0, 0, 0, 0, 50, 115, 8, 112, 0, 0, 0, 0, 51, 71, 88, 0, 0, 0, 0, 0, 52,
    82, 234, 112, 0, 0, 0, 0, 53, 39, 58, 0, 0, 0, 0, 0, 54, 50, 204, 112, 0, 0, 0, 0, 55, 7, 28,
    0, 0, 0, 0, 0, 56, 27, 232, 240, 0, 0, 0, 0, 56, 230, 254, 0, 0, 0, 0, 0, 57, 251, 202, 240,
    0, 0, 0, 0, 58, 198, 224, 0, 0, 0, 0, 0, 59, 219, 172, 240, 0, 0, 0, 0, 60, 175, 252, 128, 0,
    0, 0, 0, 61, 187, 142, 240, 0, 0, 0, 0, 62, 143, 222, 128, 0, 0, 0, 0, 63, 155, 112, 240, 0,
    0, 0, 0, 64, 111, 192, 128, 0, 0, 0, 0, 65, 132, 141, 112, 0, 0, 0, 0, 66, 79, 162, 128, 0, 0,
    0, 0, 67, 100, 111, 112, 0, 0, 0, 0, 68, 47, 132, 128, 0, 0, 0, 0, 69, 68, 81, 112, 0, 0, 0,
    0, 69, 243, 183, 0, 2, 1, 2, 1, 2, 1, 2, 1, 2, 1, 2, 1, 2, 1, 2, 1, 2, 1, 2, 1, 2, 1, 2, 1, 2,
    1, 2, 1, 2, 1, 2, 1, 2, 1, 2, 1, 2, 3, 2, 1, 2, 1, 2, 1, 2, 1, 2, 1, 2, 4, 5, 2, 1, 2, 1, 2,
    1, 2, 1, 2, 1, 2, 1, 2, 1, 2, 1, 2, 1, 2, 1, 2, 1, 2, 1, 2, 1, 2, 1, 2, 1, 2, 1, 2, 1, 2, 1,
    2, 1, 2, 1, 2, 1, 2, 1, 2, 1, 2, 1, 2, 1, 2, 1, 2, 1, 2, 1, 2, 1, 2, 1, 2, 1, 2, 1, 2, 1, 2,
    1, 2, 1, 2, 1, 2, 1, 2, 1, 2, 1, 2, 1, 2, 1, 2, 1, 2, 1, 2, 1, 2, 1, 2, 1, 2, 1, 2, 1, 2, 1,
    2, 1, 2, 1, 2, 1, 2, 1, 2, 1, 2, 1, 2, 1, 2, 1, 2, 1, 2, 1, 2, 1, 2, 1, 2, 1, 255, 255, 173,
    212, 0, 0, 255, 255, 185, 176, 1, 4, 255, 255, 171, 160, 0, 8, 255, 255, 185, 176, 0, 12, 255,
    255, 185, 176, 1, 16, 255, 255, 185, 176, 1, 20, 76, 77, 84, 0, 67, 68, 84, 0, 67, 83, 84, 0,
    69, 83, 84, 0, 67, 87, 84, 0, 67, 80, 84, 0, 10, 67, 83, 84, 54, 67, 68, 84, 44, 77, 51, 46,
    50, 46, 48, 44, 77, 49, 49, 46, 49, 46, 48, 10,
];

/// `America/Chihuahua`.
#[verifier::opaque]
pub const AMERICA_CHIHUAHUA: [u8; 691] = [
    84, 90, 105, 102, 50, 0, 0, 0, 0, 0, 0, 0, 0, 0, 0, 0, 0, 0, 0, 0, 0, 0, 0, 0, 0, 0, 0, 0, 0,
    0, 0, 0, 0, 0, 0, 0, 0, 0, 0, 1, 0, 0, 0, 1, 0, 0, 0, 0, 0, 0, 0, 84, 90, 105, 102, 50, 0, 0,
    0, 0, 0, 0, 0, 0, 0, 0, 0, 0, 0, 0, 0, 0, 0, 0, 0, 0, 0, 0, 0, 0, 0, 0, 0, 0, 0, 0, 60, 0, 0,
    0, 5, 0, 0, 0, 20, 255, 255, 255, 255, 165, 182, 232, 112, 255, 255, 255, 255, 175, 241, 43,
    112, 255, 255, 255, 255, 182, 102, 86, 96, 255, 255, 255, 255, 183, 65, 61, 112, 255, 255,
    255, 255, 184, 12, 54, 96, 255, 255, 255, 255, 184, 253, 134, 240, 0, 0, 0, 0, 49, 103, 118,
    0, 0, 0, 0, 0, 50, 115, 8, 112, 0, 0, 0, 0, 51, 71, 88, 0, 0, 0, 0, 0, 52, 82, 234, 112, 0, 0,
    0, 0, 53, 39, 72, 16, 0, 0, 0, 0, 54, 50, 218, 128, 0, 0, 0, 0, 55, 7, 42, 16, 0, 0, 0, 0, 56,
    27, 247, 0, 0, 0, 0, 0, 56, 231, 12, 16, 0, 0, 0, 0, 57, 251, 217, 0, 0, 0, 0, 0, 58, 245, 18,
    144, 0, 0, 0, 0, 59, 182, 209, 0, 0, 0, 0, 0, 60, 176, 10, 144, 0, 0, 0, 0, 61, 187, 157, 0,
    0, 0, 0, 0, 62, 143, 236, 144, 0, 0, 0, 0, 63, 155, 127, 0, 0, 0, 0, 0, 64, 111, 206, 144, 0,
    0, 0, 0, 65, 132, 155, 128, 0, 0, 0, 0, 66, 79, 176, 144, 0, 0, 0, 0, 67, 100, 125, 128, 0, 0,
    0, 0, 68, 47, 146, 144, 0, 0, 0, 0, 69, 68, 95, 128, 0, 0, 0, 0, 70, 15, 116, 144, 0, 0, 0, 0,
    71, 36, 65, 128, 0, 0, 0, 0, 71, 248, 145, 16, 0, 0, 0, 0, 73, 4, 35, 128, 0, 0, 0, 0, 73,
    216, 115, 16, 0, 0, 0, 0, 74, 228, 5, 128, 0, 0, 0, 0, 75, 184, 85, 16, 0, 0, 0, 0, 76, 205,
    34, 0, 0, 0, 0, 0, 77, 152, 55, 16, 0, 0, 0, 0, 78, 173, 4, 0, 0, 0, 0, 0, 79, 120, 25, 16, 0,
    0, 0, 0, 80, 140, 230, 0, 0, 0, 0, 0, 81, 97, 53, 144, 0, 0, 0, 0, 82, 108, 200, 0, 0, 0, 0,
    0, 83, 65, 23, 144, 0, 0, 0, 0, 84, 76, 170, 0, 0, 0, 0, 0, 85, 32, 249, 144, 0, 0, 0, 0, 86,
    44, 140, 0, 0, 0, 0, 0, 87, 0, 219, 144, 0, 0, 0, 0, 88, 21, 168, 128, 0, 0, 0, 0, 88, 224,
    189, 144, 0, 0, 0, 0, 89, 245, 138, 128, 0, 0, 0, 0, 90, 192, 159, 144, 0, 0, 0, 0, 91, 213,
    108, 128, 0, 0, 0, 0, 92, 169, 188, 16, 0, 0, 0, 0, 93, 181, 78, 128, 0, 0, 0, 0, 94, 137,
    158, 16, 0, 0, 0, 0, 95, 149, 48, 128, 0, 0, 0, 0, 96, 105, 128, 16, 0, 0, 0, 0, 97, 126, 77,
    0, 0, 0, 0, 0, 98, 73, 98, 16, 0, 0, 0, 0, 99, 94, 47, 0, 1, 2, 1, 3, 1, 2, 4, 2, 4, 2, 3, 1,
    3, 1, 3, 1, 3, 1, 3, 1, 3, 1, 3, 1, 3, 1, 3, 1, 3, 1, 3, 1, 3, 1, 3, 1, 3, 1, 3, 1, 3, 1, 3,
    1, 3, 1, 3, 1, 3, 1, 3, 1, 3, 1, 3, 1, 3, 1, 3, 2, 255, 255, 156, 140, 0, 0, 255, 255, 157,
    144, 0, 4, 255, 255, 171, 160, 0, 8, 255, 255, 171, 160, 1, 12, 255, 255, 185, 176, 1, 16, 76,
    77, 84, 0, 77, 83, 84, 0, 67, 83, 84, 0, 77, 68, 84, 0, 67, 68, 84, 0, 10, 67, 83, 84, 54, 10,
];

/// `America/Ciudad_Juarez`.
#[verifier::opaque]
pub const AMERICA_CIUDAD_JUAREZ: [u8; 718] = [
    84, 90, 105, 102, 50, 0, 0, 0, 0, 0, 0, 0, 0, 0, 0, 0, 0, 0, 0, 0, 0, 0, 0, 0, 0, 0, 0, 0, 0,
    0, 0, 0, 0, 0, 0, 0, 0, 0, 0, 1, 0, 0, 0, 1, 0, 0, 0, 0, 0, 0, 0, 84, 90, 105, 102, 50, 0, 0,
    0, 0, 0, 0, 0, 0, 0, 0, 0, 0, 0, 0, 0, 0, 0, 0, 0, 0, 0, 0, 0, 0, 0, 0, 0, 0, 0, 0, 61, 0, 0,
    0, 5, 0, 0, 0, 20, 255, 255, 255, 255, 165, 182, 232, 112, 255, 255, 255, 255, 175, 241, 43,
    112, 255, 255, 255, 255, 182, 102, 86, 96, 255, 255, 255, 255, 183, 65, 61, 112, 255, 255,
    255, 255, 184, 12, 54, 96, 255, 255, 255, 255, 184, 253, 134, 240, 0, 0, 0, 0, 49, 103, 118,
    0, 0, 0, 0, 0, 50, 115, 8, 112, 0, 0, 0, 0, 51, 71, 88, 0, 0, 0, 0, 0, 52, 82, 234, 112, 0, 0,
    0, 0, 53, 39, 72, 16, 0, 0, 0, 0, 54, 50, 218, 128, 0, 0, 0, 0, 55, 7, 42, 16, 0, 0, 0, 0, 56,
    27, 247, 0, 0, 0, 0, 0, 56, 231, 12, 16, 0, 0, 0, 0, 57, 251, 217, 0, 0, 0, 0, 0, 58, 245, 18,
    144, 0, 0, 0, 0, 59, 182, 209, 0, 0, 0, 0, 0, 60, 176, 10, 144, 0, 0, 0, 0, 61, 187, 157, 0,
    0, 0, 0, 0, 62, 143, 236, 144, 0, 0, 0, 0, 63, 155, 127, 0, 0, 0, 0, 0, 64, 111, 206, 144, 0,
    0, 0, 0, 65, 132, 155, 128, 0, 0, 0, 0, 66, 79, 176, 144, 0, 0, 0, 0, 67, 100, 125, 128, 0, 0,
    0, 0, 68, 47, 146, 144, 0, 0, 0, 0, 69, 68, 95, 128, 0, 0, 0, 0, 70, 15, 116, 144, 0, 0, 0, 0,
    71, 36, 65, 128, 0, 0, 0, 0, 71, 248, 145, 16, 0, 0, 0, 0, 73, 4, 35, 128, 0, 0, 0, 0, 73,
    216, 115, 16, 0, 0, 0, 0, 74, 228, 5, 128, 0, 0, 0, 0, 75, 156, 165, 144, 0, 0, 0, 0, 76, 214,
    92, 128, 0, 0, 0, 0, 77, 124, 135, 144, 0, 0, 0, 0, 78, 182, 62, 128, 0, 0, 0, 0, 79, 92, 105,
    144, 0, 0, 0, 0, 80, 150, 32, 128, 0, 0, 0, 0, 81, 60, 75, 144, 0, 0, 0, 0, 82, 118, 2, 128,
    0, 0, 0, 0, 83, 28, 45, 144, 0, 0, 0, 0, 84, 85, 228, 128, 0, 0, 0, 0, 84, 252, 15, 144, 0, 0,
    0, 0, 86, 53, 198, 128, 0, 0, 0, 0, 86, 229, 44, 16, 0, 0, 0, 0, 88, 30, 227, 0, 0, 0, 0, 0,
    88, 197, 14, 16, 0, 0, 0, 0, 89, 254, 197, 0, 0, 0, 0, 0, 90, 164, 240, 16, 0, 0, 0, 0, 91,
    222, 167, 0, 0, 0, 0, 0, 92, 132, 210, 16, 0, 0, 0, 0, 93, 190, 137, 0, 0, 0, 0, 0, 94, 100,
    180, 16, 0, 0, 0, 0, 95, 158, 107, 0, 0, 0, 0, 0, 96, 77, 208, 144, 0, 0, 0, 0, 97, 135, 135,
    128, 0, 0, 0, 0, 98, 45, 178, 144, 0, 0, 0, 0, 99, 94, 47, 0, 0, 0, 0, 0, 99, 134, 241, 96, 1,
    2, 1, 3, 1, 2, 4, 2, 4, 2, 3, 1, 3, 1, 3, 1, 3, 1, 3, 1, 3, 1, 3, 1, 3, 1, 3, 1, 3, 1, 3, 1,
    3, 1, 3, 1, 3, 1, 3, 1, 3, 1, 3, 1, 3, 1, 3, 1, 3, 1, 3, 1, 3, 1, 3, 1, 3, 1, 3, 2, 1, 255,
    255, 156, 44, 0, 0, 255, 255, 157, 144, 0, 4, 255, 255, 171, 160, 0, 8, 255, 255, 171, 160, 1,
    12, 255, 255, 185, 176, 1, 16, 76, 77, 84, 0, 77, 83, 84, 0, 67, 83, 84, 0, 77, 68, 84, 0, 67,
    68, 84, 0, 10, 77, 83, 84, 55, 77, 68, 84, 44, 77, 51, 46, 50, 46, 48, 44, 77, 49, 49, 46, 49,
    46, 48, 10,
];

/// `America/Costa_Rica`.
#[verifier::opaque]
pub const AMERICA_COSTA_RICA: [u8; 232] = [
    84, 90, 105, 102, 50, 0, 0, 0, 0, 0, 0, 0, 0, 0, 0, 0, 0, 0, 0, 0, 0, 0, 0, 0, 0, 0, 0, 0, 0,
    0, 0, 0, 0, 0, 0, 0, 0, 0, 0, 1, 0, 0, 0, 1, 0, 0, 0, 0, 0, 0, 0, 84, 90, 105, 102, 50, 0, 0,
    0, 0, 0, 0, 0, 0, 0, 0, 0, 0, 0, 0, 0, 0, 0, 0, 0, 0, 0, 0, 0, 0, 0, 0, 0, 0, 0, 0, 10, 0, 0,
    0, 4, 0, 0, 0, 17, 255, 255, 255, 255, 105, 135, 42, 77, 255, 255, 255, 255, 163, 232, 22, 77,
    0, 0, 0, 0, 17, 54, 73, 96, 0, 0, 0, 0, 17, 183, 110, 80, 0, 0, 0, 0, 19, 22, 43, 96, 0, 0, 0,
    0, 19, 151, 80, 80, 0, 0, 0, 0, 39, 151, 224, 96, 0, 0, 0, 0, 40, 110, 182, 208, 0, 0, 0, 0,
    41, 119, 194, 96, 0, 0, 0, 0, 41, 194, 217, 208, 1, 3, 2, 3, 2, 3, 2, 3, 2, 3, 255, 255, 177,
    51, 0, 0, 255, 255, 177, 51, 0, 4, 255, 255, 185, 176, 1, 9, 255, 255, 171, 160, 0, 13, 76,
    77, 84, 0, 83, 74, 77, 84, 0, 67, 68, 84, 0, 67, 83, 84, 0, 10, 67, 83, 84, 54, 10,
];

/// `America/Coyhaique`.
#[verifier::opaque]
pub const AMERICA_COYHAIQUE: [u8; 1362] = [
    84, 90, 105, 102, 50, 0, 0, 0, 0, 0, 0, 0, 0, 0, 0, 0, 0, 0, 0, 0, 0, 0, 0, 0, 0, 0, 0, 0, 0,
    0, 0, 0, 0, 0, 0, 0, 0, 0, 0, 1, 0, 0, 0, 1, 0, 0, 0, 0, 0, 0, 0, 84, 90, 105, 102, 50, 0, 0,
    0, 0, 0, 0, 0, 0, 0, 0, 0, 0, 0, 0, 0, 0, 0, 0, 0, 0, 0, 0, 0, 0, 0, 0, 0, 0, 0, 0, 133, 0, 0,
    0, 7, 0, 0, 0, 20, 255, 255, 255, 255, 105, 135, 31, 16, 255, 255, 255, 255, 143, 48, 71, 69,
    255, 255, 255, 255, 155, 92, 229, 80, 255, 255, 255, 255, 159, 124, 226, 197, 255, 255, 255,
    255, 161, 0, 113, 192, 255, 255, 255, 255, 176, 94, 119, 197, 255, 255, 255, 255, 177, 119,
    61, 64, 255, 255, 255, 255, 178, 65, 0, 208, 255, 255, 255, 255, 179, 88, 112, 192, 255, 255,
    255, 255, 180, 34, 52, 80, 255, 255, 255, 255, 181, 57, 164, 64, 255, 255, 255, 255, 182, 3,
    103, 208, 255, 255, 255, 255, 183, 26, 215, 192, 255, 255, 255, 255, 183, 228, 155, 80, 255,
    255, 255, 255, 184, 253, 92, 192, 255, 255, 255, 255, 185, 199, 32, 80, 255, 255, 255, 255,
    204, 28, 110, 64, 255, 255, 255, 255, 204, 108, 231, 208, 255, 255, 255, 255, 212, 23, 227,
    64, 255, 255, 255, 255, 213, 51, 85, 192, 255, 255, 255, 255, 213, 118, 146, 64, 255, 255,
    255, 255, 253, 209, 60, 64, 255, 255, 255, 255, 254, 146, 250, 176, 255, 255, 255, 255, 255,
    204, 205, 192, 0, 0, 0, 0, 0, 114, 220, 176, 0, 0, 0, 0, 1, 117, 80, 192, 0, 0, 0, 0, 2, 64,
    73, 176, 0, 0, 0, 0, 3, 85, 50, 192, 0, 0, 0, 0, 4, 32, 43, 176, 0, 0, 0, 0, 5, 62, 79, 64, 0,
    0, 0, 0, 6, 0, 13, 176, 0, 0, 0, 0, 7, 11, 188, 64, 0, 0, 0, 0, 7, 223, 239, 176, 0, 0, 0, 0,
    8, 254, 19, 64, 0, 0, 0, 0, 9, 191, 209, 176, 0, 0, 0, 0, 10, 221, 245, 64, 0, 0, 0, 0, 11,
    168, 238, 48, 0, 0, 0, 0, 12, 189, 215, 64, 0, 0, 0, 0, 13, 136, 208, 48, 0, 0, 0, 0, 14, 157,
    185, 64, 0, 0, 0, 0, 15, 104, 178, 48, 0, 0, 0, 0, 16, 134, 213, 192, 0, 0, 0, 0, 17, 72, 148,
    48, 0, 0, 0, 0, 18, 102, 183, 192, 0, 0, 0, 0, 19, 40, 118, 48, 0, 0, 0, 0, 20, 70, 153, 192,
    0, 0, 0, 0, 21, 17, 146, 176, 0, 0, 0, 0, 22, 38, 123, 192, 0, 0, 0, 0, 22, 241, 116, 176, 0,
    0, 0, 0, 24, 6, 93, 192, 0, 0, 0, 0, 24, 209, 86, 176, 0, 0, 0, 0, 25, 230, 63, 192, 0, 0, 0,
    0, 26, 177, 56, 176, 0, 0, 0, 0, 27, 207, 92, 64, 0, 0, 0, 0, 28, 145, 26, 176, 0, 0, 0, 0,
    29, 175, 62, 64, 0, 0, 0, 0, 30, 112, 252, 176, 0, 0, 0, 0, 31, 143, 32, 64, 0, 0, 0, 0, 32,
    127, 3, 48, 0, 0, 0, 0, 33, 111, 2, 64, 0, 0, 0, 0, 34, 57, 251, 48, 0, 0, 0, 0, 35, 78, 228,
    64, 0, 0, 0, 0, 36, 25, 221, 48, 0, 0, 0, 0, 37, 56, 0, 192, 0, 0, 0, 0, 37, 249, 191, 48, 0,
    0, 0, 0, 38, 242, 248, 192, 0, 0, 0, 0, 39, 217, 161, 48, 0, 0, 0, 0, 40, 247, 196, 192, 0, 0,
    0, 0, 41, 194, 189, 176, 0, 0, 0, 0, 42, 215, 166, 192, 0, 0, 0, 0, 43, 162, 159, 176, 0, 0,
    0, 0, 44, 183, 136, 192, 0, 0, 0, 0, 45, 130, 129, 176, 0, 0, 0, 0, 46, 151, 106, 192, 0, 0,
    0, 0, 47, 98, 99, 176, 0, 0, 0, 0, 48, 128, 135, 64, 0, 0, 0, 0, 49, 66, 69, 176, 0, 0, 0, 0,
    50, 96, 105, 64, 0, 0, 0, 0, 51, 61, 215, 48, 0, 0, 0, 0, 52, 64, 75, 64, 0, 0, 0, 0, 53, 11,
    68, 48, 0, 0, 0, 0, 54, 13, 184, 64, 0, 0, 0, 0, 55, 6, 213, 176, 0, 0, 0, 0, 56, 0, 15, 64,
    0, 0, 0, 0, 56, 203, 8, 48, 0, 0, 0, 0, 57, 233, 43, 192, 0, 0, 0, 0, 58, 170, 234, 48, 0, 0,
    0, 0, 59, 201, 13, 192, 0, 0, 0, 0, 60, 138, 204, 48, 0, 0, 0, 0, 61, 168, 239, 192, 0, 0, 0,
    0, 62, 106, 174, 48, 0, 0, 0, 0, 63, 136, 209, 192, 0, 0, 0, 0, 64, 83, 202, 176, 0, 0, 0, 0,
    65, 104, 179, 192, 0, 0, 0, 0, 66, 51, 172, 176, 0, 0, 0, 0, 67, 72, 149, 192, 0, 0, 0, 0, 68,
    19, 142, 176, 0, 0, 0, 0, 69, 49, 178, 64, 0, 0, 0, 0, 69, 243, 112, 176, 0, 0, 0, 0, 71, 17,
    148, 64, 0, 0, 0, 0, 71, 239, 2, 48, 0, 0, 0, 0, 72, 241, 118, 64, 0, 0, 0, 0, 73, 188, 111,
    48, 0, 0, 0, 0, 74, 209, 88, 64, 0, 0, 0, 0, 75, 184, 0, 176, 0, 0, 0, 0, 76, 177, 58, 64, 0,
    0, 0, 0, 77, 198, 7, 48, 0, 0, 0, 0, 78, 80, 130, 192, 0, 0, 0, 0, 79, 156, 174, 176, 0, 0, 0,
    0, 80, 66, 217, 192, 0, 0, 0, 0, 81, 124, 144, 176, 0, 0, 0, 0, 82, 43, 246, 64, 0, 0, 0, 0,
    83, 92, 114, 176, 0, 0, 0, 0, 84, 11, 216, 64, 0, 0, 0, 0, 87, 55, 230, 48, 0, 0, 0, 0, 87,
    175, 236, 192, 0, 0, 0, 0, 89, 23, 200, 48, 0, 0, 0, 0, 89, 143, 206, 192, 0, 0, 0, 0, 90,
    247, 170, 48, 0, 0, 0, 0, 91, 111, 176, 192, 0, 0, 0, 0, 92, 169, 103, 176, 0, 0, 0, 0, 93,
    116, 124, 192, 0, 0, 0, 0, 94, 137, 73, 176, 0, 0, 0, 0, 95, 84, 94, 192, 0, 0, 0, 0, 96, 105,
    43, 176, 0, 0, 0, 0, 97, 52, 64, 192, 0, 0, 0, 0, 98, 73, 13, 176, 0, 0, 0, 0, 99, 29, 93, 64,
    0, 0, 0, 0, 100, 40, 239, 176, 0, 0, 0, 0, 100, 244, 4, 192, 0, 0, 0, 0, 102, 18, 12, 48, 0,
    0, 0, 0, 102, 221, 33, 64, 0, 0, 0, 0, 103, 219, 132, 176, 1, 2, 1, 3, 1, 4, 2, 4, 2, 4, 2, 4,
    2, 4, 2, 3, 2, 3, 4, 2, 3, 5, 3, 5, 3, 5, 3, 5, 3, 5, 3, 5, 3, 5, 3, 5, 3, 5, 3, 5, 3, 5, 3,
    5, 3, 5, 3, 5, 3, 5, 3, 5, 3, 5, 3, 5, 3, 5, 3, 5, 3, 5, 3, 5, 3, 5, 3, 5, 3, 5, 3, 5, 3, 5,
    3, 5, 3, 5, 3, 5, 3, 5, 3, 5, 3, 5, 3, 5, 3, 5, 3, 5, 3, 5, 3, 5, 3, 5, 3, 5, 3, 5, 3, 5, 3,
    5, 3, 5, 3, 5, 3, 5, 3, 5, 3, 5, 3, 5, 3, 5, 3, 5, 3, 5, 3, 5, 3, 5, 3, 5, 3, 5, 6, 255, 255,
    188, 112, 0, 0, 255, 255, 189, 187, 0, 4, 255, 255, 185, 176, 0, 8, 255, 255, 199, 192, 0, 12,
    255, 255, 199, 192, 1, 12, 255, 255, 213, 208, 1, 16, 255, 255, 213, 208, 0, 16, 76, 77, 84,
    0, 83, 77, 84, 0, 45, 48, 53, 0, 45, 48, 52, 0, 45, 48, 51, 0, 10, 60, 45, 48, 51, 62, 51, 10,
];

/// `America/Cuiaba`.
#[verifier::opaque]
pub const AMERICA_CUIABA: [u8; 934] = [
    84, 90, 105, 102, 50, 0, 0, 0, 0, 0, 0, 0, 0, 0, 0, 0, 0, 0, 0, 0, 0, 0, 0, 0, 0, 0, 0, 0, 0,
    0, 0, 0, 0, 0, 0, 0, 0, 0, 0, 1, 0, 0, 0, 1, 0, 0, 0, 0, 0, 0, 0, 84, 90, 105, 102, 50, 0, 0,
    0, 0, 0, 0, 0, 0, 0, 0, 0, 0, 0, 0, 0, 0, 0, 0, 0, 0, 0, 0, 0, 0, 0, 0, 0, 0, 0, 0, 89, 0, 0,
    0, 3, 0, 0, 0, 12, 255, 255, 255, 255, 150, 170, 123, 148, 255, 255, 255, 255, 184, 15, 87,
    240, 255, 255, 255, 255, 184, 253, 78, 176, 255, 255, 255, 255, 185, 241, 66, 64, 255, 255,
    255, 255, 186, 222, 130, 48, 255, 255, 255, 255, 218, 56, 188, 64, 255, 255, 255, 255, 218,
    236, 8, 64, 255, 255, 255, 255, 220, 25, 239, 192, 255, 255, 255, 255, 220, 185, 103, 48, 255,
    255, 255, 255, 221, 251, 35, 64, 255, 255, 255, 255, 222, 155, 236, 48, 255, 255, 255, 255,
    223, 221, 168, 64, 255, 255, 255, 255, 224, 84, 65, 48, 255, 255, 255, 255, 244, 152, 13, 192,
    255, 255, 255, 255, 245, 5, 108, 48, 255, 255, 255, 255, 246, 192, 114, 64, 255, 255, 255,
    255, 247, 14, 44, 176, 255, 255, 255, 255, 248, 81, 58, 64, 255, 255, 255, 255, 248, 199, 211,
    48, 255, 255, 255, 255, 250, 10, 224, 192, 255, 255, 255, 255, 250, 169, 6, 176, 255, 255,
    255, 255, 251, 236, 20, 64, 255, 255, 255, 255, 252, 139, 139, 176, 0, 0, 0, 0, 29, 201, 156,
    64, 0, 0, 0, 0, 30, 120, 229, 176, 0, 0, 0, 0, 31, 160, 67, 192, 0, 0, 0, 0, 32, 51, 221, 176,
    0, 0, 0, 0, 33, 129, 119, 64, 0, 0, 0, 0, 34, 11, 214, 176, 0, 0, 0, 0, 35, 88, 30, 192, 0, 0,
    0, 0, 35, 226, 126, 48, 0, 0, 0, 0, 37, 56, 0, 192, 0, 0, 0, 0, 37, 212, 213, 48, 0, 0, 0, 0,
    39, 33, 29, 64, 0, 0, 0, 0, 39, 189, 241, 176, 0, 0, 0, 0, 41, 0, 255, 64, 0, 0, 0, 0, 41,
    148, 153, 48, 0, 0, 0, 0, 42, 234, 27, 192, 0, 0, 0, 0, 43, 107, 64, 176, 0, 0, 0, 0, 44, 192,
    195, 64, 0, 0, 0, 0, 45, 102, 210, 48, 0, 0, 0, 0, 46, 160, 165, 64, 0, 0, 0, 0, 47, 70, 180,
    48, 0, 0, 0, 0, 48, 128, 135, 64, 0, 0, 0, 0, 49, 29, 91, 176, 0, 0, 0, 0, 50, 87, 46, 192, 0,
    0, 0, 0, 51, 6, 120, 48, 0, 0, 0, 0, 52, 56, 98, 64, 0, 0, 0, 0, 52, 248, 207, 48, 0, 0, 0, 0,
    54, 32, 45, 64, 0, 0, 0, 0, 54, 207, 118, 176, 0, 0, 0, 0, 55, 246, 212, 192, 0, 0, 0, 0, 56,
    184, 147, 48, 0, 0, 0, 0, 57, 223, 241, 64, 0, 0, 0, 0, 58, 143, 58, 176, 0, 0, 0, 0, 59, 201,
    13, 192, 0, 0, 0, 0, 60, 111, 28, 176, 0, 0, 0, 0, 61, 196, 159, 64, 0, 0, 0, 0, 62, 78, 254,
    176, 0, 0, 0, 0, 65, 135, 6, 64, 0, 0, 0, 0, 66, 23, 253, 48, 0, 0, 0, 0, 67, 81, 208, 64, 0,
    0, 0, 0, 67, 247, 223, 48, 0, 0, 0, 0, 69, 77, 97, 192, 0, 0, 0, 0, 69, 224, 251, 176, 0, 0,
    0, 0, 71, 17, 148, 64, 0, 0, 0, 0, 71, 183, 163, 48, 0, 0, 0, 0, 72, 250, 176, 192, 0, 0, 0,
    0, 73, 151, 133, 48, 0, 0, 0, 0, 74, 218, 146, 192, 0, 0, 0, 0, 75, 128, 161, 176, 0, 0, 0, 0,
    76, 186, 116, 192, 0, 0, 0, 0, 77, 96, 131, 176, 0, 0, 0, 0, 78, 154, 86, 192, 0, 0, 0, 0, 79,
    73, 160, 48, 0, 0, 0, 0, 80, 131, 115, 64, 0, 0, 0, 0, 81, 32, 71, 176, 0, 0, 0, 0, 82, 99,
    85, 64, 0, 0, 0, 0, 83, 0, 41, 176, 0, 0, 0, 0, 84, 67, 55, 64, 0, 0, 0, 0, 84, 233, 70, 48,
    0, 0, 0, 0, 86, 35, 25, 64, 0, 0, 0, 0, 86, 201, 40, 48, 0, 0, 0, 0, 88, 2, 251, 64, 0, 0, 0,
    0, 88, 169, 10, 48, 0, 0, 0, 0, 89, 226, 221, 64, 0, 0, 0, 0, 90, 136, 236, 48, 0, 0, 0, 0,
    91, 222, 110, 192, 0, 0, 0, 0, 92, 104, 206, 48, 2, 1, 2, 1, 2, 1, 2, 1, 2, 1, 2, 1, 2, 1, 2,
    1, 2, 1, 2, 1, 2, 1, 2, 1, 2, 1, 2, 1, 2, 1, 2, 1, 2, 1, 2, 1, 2, 1, 2, 1, 2, 1, 2, 1, 2, 1,
    2, 1, 2, 1, 2, 1, 2, 1, 2, 1, 2, 1, 2, 1, 2, 1, 2, 1, 2, 1, 2, 1, 2, 1, 2, 1, 2, 1, 2, 1, 2,
    1, 2, 1, 2, 1, 2, 1, 2, 1, 2, 1, 2, 255, 255, 203, 108, 0, 0, 255, 255, 213, 208, 1, 4, 255,
    255, 199, 192, 0, 8, 76, 77, 84, 0, 45, 48, 51, 0, 45, 48, 52, 0, 10, 60, 45, 48, 52, 62, 52,
    10,
];

/// `America/Danmarkshavn`.
#[verifier::opaque]
pub const AMERICA_DANMARKSHAVN: [u8; 447] = [
    84, 90, 105, 102, 50, 0, 0, 0, 0, 0, 0, 0, 0, 0, 0, 0, 0, 0, 0, 0, 0, 0, 0, 0, 0, 0, 0, 0, 0,
    0, 0, 0, 0, 0, 0, 0, 0, 0, 0, 1, 0, 0, 0, 1, 0, 0, 0, 0, 0, 0, 0, 84, 90, 105, 102, 50, 0, 0,
    0, 0, 0, 0, 0, 0, 0, 0, 0, 0, 0, 0, 0, 0, 0, 0, 0, 0, 0, 0, 0, 0, 0, 0, 0, 0, 0, 0, 34, 0, 0,
    0, 4, 0, 0, 0, 16, 255, 255, 255, 255, 155, 128, 73, 0, 0, 0, 0, 0, 19, 77, 124, 80, 0, 0, 0,
    0, 20, 51, 250, 144, 0, 0, 0, 0, 21, 35, 235, 144, 0, 0, 0, 0, 22, 19, 220, 144, 0, 0, 0, 0,
    23, 3, 205, 144, 0, 0, 0, 0, 23, 243, 190, 144, 0, 0, 0, 0, 24, 227, 175, 144, 0, 0, 0, 0, 25,
    211, 160, 144, 0, 0, 0, 0, 26, 195, 145, 144, 0, 0, 0, 0, 27, 188, 189, 16, 0, 0, 0, 0, 28,
    172, 174, 16, 0, 0, 0, 0, 29, 156, 159, 16, 0, 0, 0, 0, 30, 140, 144, 16, 0, 0, 0, 0, 31, 124,
    129, 16, 0, 0, 0, 0, 32, 108, 114, 16, 0, 0, 0, 0, 33, 92, 99, 16, 0, 0, 0, 0, 34, 76, 84, 16,
    0, 0, 0, 0, 35, 60, 69, 16, 0, 0, 0, 0, 36, 44, 54, 16, 0, 0, 0, 0, 37, 28, 39, 16, 0, 0, 0,
    0, 38, 12, 24, 16, 0, 0, 0, 0, 39, 5, 67, 144, 0, 0, 0, 0, 39, 245, 52, 144, 0, 0, 0, 0, 40,
    229, 37, 144, 0, 0, 0, 0, 41, 213, 22, 144, 0, 0, 0, 0, 42, 197, 7, 144, 0, 0, 0, 0, 43, 180,
    248, 144, 0, 0, 0, 0, 44, 164, 233, 144, 0, 0, 0, 0, 45, 148, 218, 144, 0, 0, 0, 0, 46, 132,
    203, 144, 0, 0, 0, 0, 47, 116, 188, 144, 0, 0, 0, 0, 48, 100, 173, 144, 0, 0, 0, 0, 48, 231,
    78, 48, 1, 2, 1, 2, 1, 2, 1, 2, 1, 2, 1, 2, 1, 2, 1, 2, 1, 2, 1, 2, 1, 2, 1, 2, 1, 2, 1, 2, 1,
    2, 1, 2, 1, 3, 255, 255, 238, 128, 0, 0, 255, 255, 213, 208, 0, 4, 255, 255, 227, 224, 1, 8,
    0, 0, 0, 0, 0, 12, 76, 77, 84, 0, 45, 48, 51, 0, 45, 48, 50, 0, 71, 77, 84, 0, 10, 71, 77, 84,
    48, 10,
];

/// `America/Dawson`.
#[verifier::opaque]
pub const AMERICA_DAWSON: [u8; 1029] = [
    84, 90, 105, 102, 50, 0, 0, 0, 0, 0, 0, 0, 0, 0, 0, 0, 0, 0, 0, 0, 0, 0, 0, 0, 0, 0, 0, 0, 0,
    0, 0, 0, 0, 0, 0, 0, 0, 0, 0, 1, 0, 0, 0, 1, 0, 0, 0, 0, 0, 0, 0, 84, 90, 105, 102, 50, 0, 0,
    0, 0, 0, 0, 0, 0, 0, 0, 0, 0, 0, 0, 0, 0, 0, 0, 0, 0, 0, 0, 0, 0, 0, 0, 0, 0, 0, 0, 93, 0, 0,
    0, 9, 0, 0, 0, 37, 255, 255, 255, 255, 125, 134, 142, 180, 255, 255, 255, 255, 158, 184, 203,
    176, 255, 255, 255, 255, 159, 187, 35, 160, 255, 255, 255, 255, 160, 208, 12, 176, 255, 255,
    255, 255, 161, 162, 210, 128, 255, 255, 255, 255, 203, 137, 40, 176, 255, 255, 255, 255, 210,
    35, 244, 112, 255, 255, 255, 255, 210, 97, 52, 32, 255, 255, 255, 255, 247, 47, 118, 144, 255,
    255, 255, 255, 248, 40, 162, 16, 0, 0, 0, 0, 7, 48, 236, 144, 0, 0, 0, 0, 19, 105, 114, 32, 0,
    0, 0, 0, 20, 89, 85, 16, 0, 0, 0, 0, 21, 73, 84, 32, 0, 0, 0, 0, 22, 57, 55, 16, 0, 0, 0, 0,
    23, 41, 54, 32, 0, 0, 0, 0, 24, 34, 83, 144, 0, 0, 0, 0, 25, 9, 24, 32, 0, 0, 0, 0, 26, 2, 53,
    144, 0, 0, 0, 0, 26, 242, 52, 160, 0, 0, 0, 0, 27, 226, 23, 144, 0, 0, 0, 0, 28, 210, 22, 160,
    0, 0, 0, 0, 29, 193, 249, 144, 0, 0, 0, 0, 30, 177, 248, 160, 0, 0, 0, 0, 31, 161, 219, 144,
    0, 0, 0, 0, 32, 118, 43, 32, 0, 0, 0, 0, 33, 129, 189, 144, 0, 0, 0, 0, 34, 86, 13, 32, 0, 0,
    0, 0, 35, 106, 218, 16, 0, 0, 0, 0, 36, 53, 239, 32, 0, 0, 0, 0, 37, 74, 188, 16, 0, 0, 0, 0,
    38, 21, 209, 32, 0, 0, 0, 0, 39, 42, 158, 16, 0, 0, 0, 0, 39, 254, 237, 160, 0, 0, 0, 0, 41,
    10, 128, 16, 0, 0, 0, 0, 41, 222, 207, 160, 0, 0, 0, 0, 42, 234, 98, 16, 0, 0, 0, 0, 43, 190,
    177, 160, 0, 0, 0, 0, 44, 211, 126, 144, 0, 0, 0, 0, 45, 158, 147, 160, 0, 0, 0, 0, 46, 179,
    96, 144, 0, 0, 0, 0, 47, 126, 117, 160, 0, 0, 0, 0, 48, 147, 66, 144, 0, 0, 0, 0, 49, 103,
    146, 32, 0, 0, 0, 0, 50, 115, 36, 144, 0, 0, 0, 0, 51, 71, 116, 32, 0, 0, 0, 0, 52, 83, 6,
    144, 0, 0, 0, 0, 53, 39, 86, 32, 0, 0, 0, 0, 54, 50, 232, 144, 0, 0, 0, 0, 55, 7, 56, 32, 0,
    0, 0, 0, 56, 28, 5, 16, 0, 0, 0, 0, 56, 231, 26, 32, 0, 0, 0, 0, 57, 251, 231, 16, 0, 0, 0, 0,
    58, 198, 252, 32, 0, 0, 0, 0, 59, 219, 201, 16, 0, 0, 0, 0, 60, 176, 24, 160, 0, 0, 0, 0, 61,
    187, 171, 16, 0, 0, 0, 0, 62, 143, 250, 160, 0, 0, 0, 0, 63, 155, 141, 16, 0, 0, 0, 0, 64,
    111, 220, 160, 0, 0, 0, 0, 65, 132, 169, 144, 0, 0, 0, 0, 66, 79, 190, 160, 0, 0, 0, 0, 67,
    100, 139, 144, 0, 0, 0, 0, 68, 47, 160, 160, 0, 0, 0, 0, 69, 68, 109, 144, 0, 0, 0, 0, 69,
    243, 211, 32, 0, 0, 0, 0, 71, 45, 138, 16, 0, 0, 0, 0, 71, 211, 181, 32, 0, 0, 0, 0, 73, 13,
    108, 16, 0, 0, 0, 0, 73, 179, 151, 32, 0, 0, 0, 0, 74, 237, 78, 16, 0, 0, 0, 0, 75, 156, 179,
    160, 0, 0, 0, 0, 76, 214, 106, 144, 0, 0, 0, 0, 77, 124, 149, 160, 0, 0, 0, 0, 78, 182, 76,
    144, 0, 0, 0, 0, 79, 92, 119, 160, 0, 0, 0, 0, 80, 150, 46, 144, 0, 0, 0, 0, 81, 60, 89, 160,
    0, 0, 0, 0, 82, 118, 16, 144, 0, 0, 0, 0, 83, 28, 59, 160, 0, 0, 0, 0, 84, 85, 242, 144, 0, 0,
    0, 0, 84, 252, 29, 160, 0, 0, 0, 0, 86, 53, 212, 144, 0, 0, 0, 0, 86, 229, 58, 32, 0, 0, 0, 0,
    88, 30, 241, 16, 0, 0, 0, 0, 88, 197, 28, 32, 0, 0, 0, 0, 89, 254, 211, 16, 0, 0, 0, 0, 90,
    164, 254, 32, 0, 0, 0, 0, 91, 222, 181, 16, 0, 0, 0, 0, 92, 132, 224, 32, 0, 0, 0, 0, 93, 190,
    151, 16, 0, 0, 0, 0, 94, 100, 194, 32, 0, 0, 0, 0, 95, 158, 92, 240, 2, 1, 2, 1, 2, 3, 4, 2,
    5, 2, 6, 7, 6, 7, 6, 7, 6, 7, 6, 7, 6, 7, 6, 7, 6, 7, 6, 7, 6, 7, 6, 7, 6, 7, 6, 7, 6, 7, 6,
    7, 6, 7, 6, 7, 6, 7, 6, 7, 6, 7, 6, 7, 6, 7, 6, 7, 6, 7, 6, 7, 6, 7, 6, 7, 6, 7, 6, 7, 6, 7,
    6, 7, 6, 7, 6, 7, 6, 7, 6, 7, 6, 7, 6, 7, 6, 7, 6, 7, 6, 7, 6, 7, 8, 255, 255, 125, 76, 0, 0,
    255, 255, 143, 128, 1, 4, 255, 255, 129, 112, 0, 8, 255, 255, 143, 128, 1, 12, 255, 255, 143,
    128, 1, 16, 255, 255, 157, 144, 1, 20, 255, 255, 143, 128, 0, 25, 255, 255, 157, 144, 1, 29,
    255, 255, 157, 144, 0, 33, 76, 77, 84, 0, 89, 68, 84, 0, 89, 83, 84, 0, 89, 87, 84, 0, 89, 80,
    84, 0, 89, 68, 68, 84, 0, 80, 83, 84, 0, 80, 68, 84, 0, 77, 83, 84, 0, 10, 77, 83, 84, 55, 10,
];

/// `America/Dawson_Creek`.
#[verifier::opaque]
pub const AMERICA_DAWSON_CREEK: [u8; 683] = [
    84, 90, 105, 102, 50, 0, 0, 0, 0, 0, 0, 0, 0, 0, 0, 0, 0, 0, 0, 0, 0, 0, 0, 0, 0, 0, 0, 0, 0,
    0, 0, 0, 0, 0, 0, 0, 0, 0, 0, 1, 0, 0, 0, 1, 0, 0, 0, 0, 0, 0, 0, 84, 90, 105, 102, 50, 0, 0,
    0, 0, 0, 0, 0, 0, 0, 0, 0, 0, 0, 0, 0, 0, 0, 0, 0, 0, 0, 0, 0, 0, 0, 0, 0, 0, 0, 0, 58, 0, 0,
    0, 6, 0, 0, 0, 24, 255, 255, 255, 255, 94, 61, 116, 56, 255, 255, 255, 255, 158, 184, 189,
    160, 255, 255, 255, 255, 159, 187, 21, 144, 255, 255, 255, 255, 203, 137, 26, 160, 255, 255,
    255, 255, 210, 35, 244, 112, 255, 255, 255, 255, 210, 97, 38, 16, 255, 255, 255, 255, 213, 85,
    241, 32, 255, 255, 255, 255, 214, 32, 234, 16, 255, 255, 255, 255, 215, 53, 211, 32, 255, 255,
    255, 255, 216, 0, 204, 16, 255, 255, 255, 255, 217, 21, 181, 32, 255, 255, 255, 255, 217, 224,
    174, 16, 255, 255, 255, 255, 218, 254, 209, 160, 255, 255, 255, 255, 219, 192, 144, 16, 255,
    255, 255, 255, 220, 222, 179, 160, 255, 255, 255, 255, 221, 169, 172, 144, 255, 255, 255, 255,
    222, 190, 149, 160, 255, 255, 255, 255, 223, 137, 142, 144, 255, 255, 255, 255, 224, 158, 119,
    160, 255, 255, 255, 255, 225, 105, 112, 144, 255, 255, 255, 255, 226, 126, 89, 160, 255, 255,
    255, 255, 227, 73, 82, 144, 255, 255, 255, 255, 228, 94, 59, 160, 255, 255, 255, 255, 229, 41,
    52, 144, 255, 255, 255, 255, 230, 71, 88, 32, 255, 255, 255, 255, 231, 18, 81, 16, 255, 255,
    255, 255, 232, 39, 58, 32, 255, 255, 255, 255, 232, 242, 51, 16, 255, 255, 255, 255, 234, 7,
    28, 32, 255, 255, 255, 255, 234, 210, 21, 16, 255, 255, 255, 255, 235, 230, 254, 32, 255, 255,
    255, 255, 236, 177, 247, 16, 255, 255, 255, 255, 237, 198, 224, 32, 255, 255, 255, 255, 238,
    145, 217, 16, 255, 255, 255, 255, 239, 175, 252, 160, 255, 255, 255, 255, 240, 113, 187, 16,
    255, 255, 255, 255, 241, 143, 222, 160, 255, 255, 255, 255, 242, 127, 193, 144, 255, 255, 255,
    255, 243, 111, 192, 160, 255, 255, 255, 255, 244, 95, 163, 144, 255, 255, 255, 255, 245, 79,
    162, 160, 255, 255, 255, 255, 246, 63, 133, 144, 255, 255, 255, 255, 247, 47, 132, 160, 255,
    255, 255, 255, 248, 40, 162, 16, 255, 255, 255, 255, 249, 15, 102, 160, 255, 255, 255, 255,
    250, 8, 132, 16, 255, 255, 255, 255, 250, 248, 131, 32, 255, 255, 255, 255, 251, 232, 102, 16,
    255, 255, 255, 255, 252, 216, 101, 32, 255, 255, 255, 255, 253, 200, 72, 16, 255, 255, 255,
    255, 254, 184, 71, 32, 255, 255, 255, 255, 255, 168, 42, 16, 0, 0, 0, 0, 0, 152, 41, 32, 0, 0,
    0, 0, 1, 136, 12, 16, 0, 0, 0, 0, 2, 120, 11, 32, 0, 0, 0, 0, 3, 113, 40, 144, 0, 0, 0, 0, 4,
    97, 39, 160, 0, 0, 0, 0, 5, 1, 240, 144, 2, 1, 2, 3, 4, 2, 1, 2, 1, 2, 1, 2, 1, 2, 1, 2, 1, 2,
    1, 2, 1, 2, 1, 2, 1, 2, 1, 2, 1, 2, 1, 2, 1, 2, 1, 2, 1, 2, 1, 2, 1, 2, 1, 2, 1, 2, 1, 2, 1,
    2, 1, 2, 1, 2, 1, 2, 1, 5, 255, 255, 143, 72, 0, 0, 255, 255, 157, 144, 1, 4, 255, 255, 143,
    128, 0, 8, 255, 255, 157, 144, 1, 12, 255, 255, 157, 144, 1, 16, 255, 255, 157, 144, 0, 20,
    76, 77, 84, 0, 80, 68, 84, 0, 80, 83, 84, 0, 80, 87, 84, 0, 80, 80, 84, 0, 77, 83, 84, 0, 10,
    77, 83, 84, 55, 10,
];

/// `America/Denver`.
#[verifier::opaque]
pub const AMERICA_DENVER: [u8; 1042] = [
    84, 90, 105, 102, 50, 0, 0, 0, 0, 0, 0, 0, 0, 0, 0, 0, 0, 0, 0, 0, 0, 0, 0, 0, 0, 0, 0, 0, 0,
    0, 0, 0, 0, 0, 0, 0, 0, 0, 0, 1, 0, 0, 0, 1, 0, 0, 0, 0, 0, 0, 0, 84, 90, 105, 102, 50, 0, 0,
    0, 0, 0, 0, 0, 0, 0, 0, 0, 0, 0, 0, 0, 0, 0, 0, 0, 0, 0, 0, 0, 0, 0, 0, 0, 0, 0, 0, 97, 0, 0,
    0, 5, 0, 0, 0, 20, 255, 255, 255, 255, 94, 4, 12, 176, 255, 255, 255, 255, 158, 166, 58, 144,
    255, 255, 255, 255, 159, 187, 7, 128, 255, 255, 255, 255, 160, 134, 28, 144, 255, 255, 255,
    255, 161, 154, 233, 128, 255, 255, 255, 255, 162, 101, 254, 144, 255, 255, 255, 255, 163, 132,
    6, 0, 255, 255, 255, 255, 164, 69, 224, 144, 255, 255, 255, 255, 164, 143, 166, 128, 255, 255,
    255, 255, 203, 137, 12, 144, 255, 255, 255, 255, 210, 35, 244, 112, 255, 255, 255, 255, 210,
    97, 24, 0, 255, 255, 255, 255, 247, 47, 118, 144, 255, 255, 255, 255, 248, 40, 148, 0, 255,
    255, 255, 255, 249, 15, 88, 144, 255, 255, 255, 255, 250, 8, 118, 0, 255, 255, 255, 255, 250,
    248, 117, 16, 255, 255, 255, 255, 251, 232, 88, 0, 255, 255, 255, 255, 252, 216, 87, 16, 255,
    255, 255, 255, 253, 200, 58, 0, 255, 255, 255, 255, 254, 184, 57, 16, 255, 255, 255, 255, 255,
    168, 28, 0, 0, 0, 0, 0, 0, 152, 27, 16, 0, 0, 0, 0, 1, 135, 254, 0, 0, 0, 0, 0, 2, 119, 253,
    16, 0, 0, 0, 0, 3, 113, 26, 128, 0, 0, 0, 0, 4, 97, 25, 144, 0, 0, 0, 0, 5, 80, 252, 128, 0,
    0, 0, 0, 6, 64, 251, 144, 0, 0, 0, 0, 7, 48, 222, 128, 0, 0, 0, 0, 7, 141, 53, 144, 0, 0, 0,
    0, 9, 16, 192, 128, 0, 0, 0, 0, 9, 173, 177, 16, 0, 0, 0, 0, 10, 240, 162, 128, 0, 0, 0, 0,
    11, 224, 161, 144, 0, 0, 0, 0, 12, 217, 191, 0, 0, 0, 0, 0, 13, 192, 131, 144, 0, 0, 0, 0, 14,
    185, 161, 0, 0, 0, 0, 0, 15, 169, 160, 16, 0, 0, 0, 0, 16, 153, 131, 0, 0, 0, 0, 0, 17, 137,
    130, 16, 0, 0, 0, 0, 18, 121, 101, 0, 0, 0, 0, 0, 19, 105, 100, 16, 0, 0, 0, 0, 20, 89, 71, 0,
    0, 0, 0, 0, 21, 73, 70, 16, 0, 0, 0, 0, 22, 57, 41, 0, 0, 0, 0, 0, 23, 41, 40, 16, 0, 0, 0, 0,
    24, 34, 69, 128, 0, 0, 0, 0, 25, 9, 10, 16, 0, 0, 0, 0, 26, 2, 39, 128, 0, 0, 0, 0, 26, 242,
    38, 144, 0, 0, 0, 0, 27, 226, 9, 128, 0, 0, 0, 0, 28, 210, 8, 144, 0, 0, 0, 0, 29, 193, 235,
    128, 0, 0, 0, 0, 30, 177, 234, 144, 0, 0, 0, 0, 31, 161, 205, 128, 0, 0, 0, 0, 32, 118, 29,
    16, 0, 0, 0, 0, 33, 129, 175, 128, 0, 0, 0, 0, 34, 85, 255, 16, 0, 0, 0, 0, 35, 106, 204, 0,
    0, 0, 0, 0, 36, 53, 225, 16, 0, 0, 0, 0, 37, 74, 174, 0, 0, 0, 0, 0, 38, 21, 195, 16, 0, 0, 0,
    0, 39, 42, 144, 0, 0, 0, 0, 0, 39, 254, 223, 144, 0, 0, 0, 0, 41, 10, 114, 0, 0, 0, 0, 0, 41,
    222, 193, 144, 0, 0, 0, 0, 42, 234, 84, 0, 0, 0, 0, 0, 43, 190, 163, 144, 0, 0, 0, 0, 44, 211,
    112, 128, 0, 0, 0, 0, 45, 158, 133, 144, 0, 0, 0, 0, 46, 179, 82, 128, 0, 0, 0, 0, 47, 126,
    103, 144, 0, 0, 0, 0, 48, 147, 52, 128, 0, 0, 0, 0, 49, 103, 132, 16, 0, 0, 0, 0, 50, 115, 22,
    128, 0, 0, 0, 0, 51, 71, 102, 16, 0, 0, 0, 0, 52, 82, 248, 128, 0, 0, 0, 0, 53, 39, 72, 16, 0,
    0, 0, 0, 54, 50, 218, 128, 0, 0, 0, 0, 55, 7, 42, 16, 0, 0, 0, 0, 56, 27, 247, 0, 0, 0, 0, 0,
    56, 231, 12, 16, 0, 0, 0, 0, 57, 251, 217, 0, 0, 0, 0, 0, 58, 198, 238, 16, 0, 0, 0, 0, 59,
    219, 187, 0, 0, 0, 0, 0, 60, 176, 10, 144, 0, 0, 0, 0, 61, 187, 157, 0, 0, 0, 0, 0, 62, 143,
    236, 144, 0, 0, 0, 0, 63, 155, 127, 0, 0, 0, 0, 0, 64, 111, 206, 144, 0, 0, 0, 0, 65, 132,
    155, 128, 0, 0, 0, 0, 66, 79, 176, 144, 0, 0, 0, 0, 67, 100, 125, 128, 0, 0, 0, 0, 68, 47,
    146, 144, 0, 0, 0, 0, 69, 68, 95, 128, 0, 0, 0, 0, 69, 243, 197, 16, 2, 1, 2, 1, 2, 1, 2, 1,
    2, 3, 4, 2, 1, 2, 1, 2, 1, 2, 1, 2, 1, 2, 1, 2, 1, 2, 1, 2, 1, 2, 1, 2, 1, 2, 1, 2, 1, 2, 1,
    2, 1, 2, 1, 2, 1, 2, 1, 2, 1, 2, 1, 2, 1, 2, 1, 2, 1, 2, 1, 2, 1, 2, 1, 2, 1, 2, 1, 2, 1, 2,
    1, 2, 1, 2, 1, 2, 1, 2, 1, 2, 1, 2, 1, 2, 1, 2, 1, 2, 1, 2, 1, 2, 1, 2, 1, 2, 1, 255, 255,
    157, 148, 0, 0, 255, 255, 171, 160, 1, 4, 255, 255, 157, 144, 0, 8, 255, 255, 171, 160, 1, 12,
    255, 255, 171, 160, 1, 16, 76, 77, 84, 0, 77, 68, 84, 0, 77, 83, 84, 0, 77, 87, 84, 0, 77, 80,
    84, 0, 10, 77, 83, 84, 55, 77, 68, 84, 44, 77, 51, 46, 50, 46, 48, 44, 77, 49, 49, 46, 49, 46,
    48, 10,
];

/// `America/Detroit`.
#[verifier::opaque]
pub const AMERICA_DETROIT: [u8; 899] = [
    84, 90, 105, 102, 50, 0, 0, 0, 0, 0, 0, 0, 0, 0, 0, 0, 0, 0, 0, 0, 0, 0, 0, 0, 0, 0, 0, 0, 0,
    0, 0, 0, 0, 0, 0, 0, 0, 0, 0, 1, 0, 0, 0, 1, 0, 0, 0, 0, 0, 0, 0, 84, 90, 105, 102, 50, 0, 0,
    0, 0, 0, 0, 0, 0, 0, 0, 0, 0, 0, 0, 0, 0, 0, 0, 0, 0, 0, 0, 0, 0, 0, 0, 0, 0, 0, 0, 80, 0, 0,
    0, 6, 0, 0, 0, 24, 255, 255, 255, 255, 133, 189, 34, 91, 255, 255, 255, 255, 153, 60, 148, 0,
    255, 255, 255, 255, 203, 136, 240, 112, 255, 255, 255, 255, 210, 35, 244, 112, 255, 255, 255,
    255, 210, 96, 251, 224, 255, 255, 255, 255, 215, 53, 168, 240, 255, 255, 255, 255, 216, 0,
    161, 224, 255, 255, 255, 255, 251, 51, 144, 140, 255, 255, 255, 255, 251, 232, 59, 224, 255,
    255, 255, 255, 252, 216, 58, 240, 255, 255, 255, 255, 253, 200, 29, 224, 0, 0, 0, 0, 6, 64,
    223, 112, 0, 0, 0, 0, 7, 48, 194, 96, 0, 0, 0, 0, 7, 141, 25, 112, 0, 0, 0, 0, 9, 16, 164, 96,
    0, 0, 0, 0, 10, 0, 163, 112, 0, 0, 0, 0, 10, 240, 134, 96, 0, 0, 0, 0, 11, 224, 133, 112, 0,
    0, 0, 0, 12, 217, 162, 224, 0, 0, 0, 0, 13, 192, 103, 112, 0, 0, 0, 0, 14, 185, 132, 224, 0,
    0, 0, 0, 15, 169, 131, 240, 0, 0, 0, 0, 16, 153, 102, 224, 0, 0, 0, 0, 17, 137, 101, 240, 0,
    0, 0, 0, 18, 121, 72, 224, 0, 0, 0, 0, 19, 105, 71, 240, 0, 0, 0, 0, 20, 89, 42, 224, 0, 0, 0,
    0, 21, 73, 41, 240, 0, 0, 0, 0, 22, 57, 12, 224, 0, 0, 0, 0, 23, 41, 11, 240, 0, 0, 0, 0, 24,
    34, 41, 96, 0, 0, 0, 0, 25, 8, 237, 240, 0, 0, 0, 0, 26, 2, 11, 96, 0, 0, 0, 0, 26, 242, 10,
    112, 0, 0, 0, 0, 27, 225, 237, 96, 0, 0, 0, 0, 28, 209, 236, 112, 0, 0, 0, 0, 29, 193, 207,
    96, 0, 0, 0, 0, 30, 177, 206, 112, 0, 0, 0, 0, 31, 161, 177, 96, 0, 0, 0, 0, 32, 118, 0, 240,
    0, 0, 0, 0, 33, 129, 147, 96, 0, 0, 0, 0, 34, 85, 226, 240, 0, 0, 0, 0, 35, 106, 175, 224, 0,
    0, 0, 0, 36, 53, 196, 240, 0, 0, 0, 0, 37, 74, 145, 224, 0, 0, 0, 0, 38, 21, 166, 240, 0, 0,
    0, 0, 39, 42, 115, 224, 0, 0, 0, 0, 39, 254, 195, 112, 0, 0, 0, 0, 41, 10, 85, 224, 0, 0, 0,
    0, 41, 222, 165, 112, 0, 0, 0, 0, 42, 234, 55, 224, 0, 0, 0, 0, 43, 190, 135, 112, 0, 0, 0, 0,
    44, 211, 84, 96, 0, 0, 0, 0, 45, 158, 105, 112, 0, 0, 0, 0, 46, 179, 54, 96, 0, 0, 0, 0, 47,
    126, 75, 112, 0, 0, 0, 0, 48, 147, 24, 96, 0, 0, 0, 0, 49, 103, 103, 240, 0, 0, 0, 0, 50, 114,
    250, 96, 0, 0, 0, 0, 51, 71, 73, 240, 0, 0, 0, 0, 52, 82, 220, 96, 0, 0, 0, 0, 53, 39, 43,
    240, 0, 0, 0, 0, 54, 50, 190, 96, 0, 0, 0, 0, 55, 7, 13, 240, 0, 0, 0, 0, 56, 27, 218, 224, 0,
    0, 0, 0, 56, 230, 239, 240, 0, 0, 0, 0, 57, 251, 188, 224, 0, 0, 0, 0, 58, 198, 209, 240, 0,
    0, 0, 0, 59, 219, 158, 224, 0, 0, 0, 0, 60, 175, 238, 112, 0, 0, 0, 0, 61, 187, 128, 224, 0,
    0, 0, 0, 62, 143, 208, 112, 0, 0, 0, 0, 63, 155, 98, 224, 0, 0, 0, 0, 64, 111, 178, 112, 0, 0,
    0, 0, 65, 132, 127, 96, 0, 0, 0, 0, 66, 79, 148, 112, 0, 0, 0, 0, 67, 100, 97, 96, 0, 0, 0, 0,
    68, 47, 118, 112, 0, 0, 0, 0, 69, 68, 67, 96, 0, 0, 0, 0, 69, 243, 168, 240, 1, 2, 3, 4, 2, 5,
    2, 5, 2, 5, 2, 5, 2, 5, 2, 5, 2, 5, 2, 5, 2, 5, 2, 5, 2, 5, 2, 5, 2, 5, 2, 5, 2, 5, 2, 5, 2,
    5, 2, 5, 2, 5, 2, 5, 2, 5, 2, 5, 2, 5, 2, 5, 2, 5, 2, 5, 2, 5, 2, 5, 2, 5, 2, 5, 2, 5, 2, 5,
    2, 5, 2, 5, 2, 5, 2, 5, 2, 5, 2, 5, 255, 255, 178, 37, 0, 0, 255, 255, 171, 160, 0, 4, 255,
    255, 185, 176, 0, 8, 255, 255, 199, 192, 1, 12, 255, 255, 199, 192, 1, 16, 255, 255, 199, 192,
    1, 20, 76, 77, 84, 0, 67, 83, 84, 0, 69, 83, 84, 0, 69, 87, 84, 0, 69, 80, 84, 0, 69, 68, 84,
    0, 10, 69, 83, 84, 53, 69, 68, 84, 44, 77, 51, 46, 50, 46, 48, 44, 77, 49, 49, 46, 49, 46, 48,
    10,
];

/// `America/Edmonton`.
#[verifier::opaque]
pub const AMERICA_EDMONTON: [u8; 970] = [
    84, 90, 105, 102, 50, 0, 0, 0, 0, 0, 0, 0, 0, 0, 0, 0, 0, 0, 0, 0, 0, 0, 0, 0, 0, 0, 0, 0, 0,
    0, 0, 0, 0, 0, 0, 0, 0, 0, 0, 1, 0, 0, 0, 1, 0, 0, 0, 0, 0, 0, 0, 84, 90, 105, 102, 50, 0, 0,
    0, 0, 0, 0, 0, 0, 0, 0, 0, 0, 0, 0, 0, 0, 0, 0, 0, 0, 0, 0, 0, 0, 0, 0, 0, 0, 0, 0, 89, 0, 0,
    0, 5, 0, 0, 0, 20, 255, 255, 255, 255, 136, 222, 206, 224, 255, 255, 255, 255, 158, 184, 175,
    144, 255, 255, 255, 255, 159, 187, 7, 128, 255, 255, 255, 255, 160, 152, 145, 144, 255, 255,
    255, 255, 160, 210, 133, 128, 255, 255, 255, 255, 162, 138, 232, 144, 255, 255, 255, 255, 163,
    132, 6, 0, 255, 255, 255, 255, 164, 106, 202, 144, 255, 255, 255, 255, 165, 53, 195, 128, 255,
    255, 255, 255, 166, 83, 231, 16, 255, 255, 255, 255, 167, 21, 165, 128, 255, 255, 255, 255,
    168, 51, 201, 16, 255, 255, 255, 255, 168, 254, 194, 0, 255, 255, 255, 255, 203, 137, 12, 144,
    255, 255, 255, 255, 210, 35, 244, 112, 255, 255, 255, 255, 210, 97, 24, 0, 255, 255, 255, 255,
    213, 85, 227, 16, 255, 255, 255, 255, 214, 32, 220, 0, 0, 0, 0, 0, 4, 97, 25, 144, 0, 0, 0, 0,
    5, 80, 252, 128, 0, 0, 0, 0, 6, 64, 251, 144, 0, 0, 0, 0, 7, 48, 222, 128, 0, 0, 0, 0, 8, 32,
    221, 144, 0, 0, 0, 0, 9, 16, 192, 128, 0, 0, 0, 0, 10, 0, 191, 144, 0, 0, 0, 0, 10, 240, 162,
    128, 0, 0, 0, 0, 11, 224, 161, 144, 0, 0, 0, 0, 12, 217, 191, 0, 0, 0, 0, 0, 13, 192, 131,
    144, 0, 0, 0, 0, 14, 185, 161, 0, 0, 0, 0, 0, 15, 169, 160, 16, 0, 0, 0, 0, 16, 153, 131, 0,
    0, 0, 0, 0, 17, 137, 130, 16, 0, 0, 0, 0, 18, 121, 101, 0, 0, 0, 0, 0, 19, 105, 100, 16, 0, 0,
    0, 0, 20, 89, 71, 0, 0, 0, 0, 0, 21, 73, 70, 16, 0, 0, 0, 0, 22, 57, 41, 0, 0, 0, 0, 0, 23,
    41, 40, 16, 0, 0, 0, 0, 24, 34, 69, 128, 0, 0, 0, 0, 25, 9, 10, 16, 0, 0, 0, 0, 26, 2, 39,
    128, 0, 0, 0, 0, 26, 242, 38, 144, 0, 0, 0, 0, 27, 226, 9, 128, 0, 0, 0, 0, 28, 210, 8, 144,
    0, 0, 0, 0, 29, 193, 235, 128, 0, 0, 0, 0, 30, 177, 234, 144, 0, 0, 0, 0, 31, 161, 205, 128,
    0, 0, 0, 0, 32, 118, 29, 16, 0, 0, 0, 0, 33, 129, 175, 128, 0, 0, 0, 0, 34, 85, 255, 16, 0, 0,
    0, 0, 35, 106, 204, 0, 0, 0, 0, 0, 36, 53, 225, 16, 0, 0, 0, 0, 37, 74, 174, 0, 0, 0, 0, 0,
    38, 21, 195, 16, 0, 0, 0, 0, 39, 42, 144, 0, 0, 0, 0, 0, 39, 254, 223, 144, 0, 0, 0, 0, 41,
    10, 114, 0, 0, 0, 0, 0, 41, 222, 193, 144, 0, 0, 0, 0, 42, 234, 84, 0, 0, 0, 0, 0, 43, 190,
    163, 144, 0, 0, 0, 0, 44, 211, 112, 128, 0, 0, 0, 0, 45, 158, 133, 144, 0, 0, 0, 0, 46, 179,
    82, 128, 0, 0, 0, 0, 47, 126, 103, 144, 0, 0, 0, 0, 48, 147, 52, 128, 0, 0, 0, 0, 49, 103,
    132, 16, 0, 0, 0, 0, 50, 115, 22, 128, 0, 0, 0, 0, 51, 71, 102, 16, 0, 0, 0, 0, 52, 82, 248,
    128, 0, 0, 0, 0, 53, 39, 72, 16, 0, 0, 0, 0, 54, 50, 218, 128, 0, 0, 0, 0, 55, 7, 42, 16, 0,
    0, 0, 0, 56, 27, 247, 0, 0, 0, 0, 0, 56, 231, 12, 16, 0, 0, 0, 0, 57, 251, 217, 0, 0, 0, 0, 0,
    58, 198, 238, 16, 0, 0, 0, 0, 59, 219, 187, 0, 0, 0, 0, 0, 60, 176, 10, 144, 0, 0, 0, 0, 61,
    187, 157, 0, 0, 0, 0, 0, 62, 143, 236, 144, 0, 0, 0, 0, 63, 155, 127, 0, 0, 0, 0, 0, 64, 111,
    206, 144, 0, 0, 0, 0, 65, 132, 155, 128, 0, 0, 0, 0, 66, 79, 176, 144, 0, 0, 0, 0, 67, 100,
    125, 128, 0, 0, 0, 0, 68, 47, 146, 144, 0, 0, 0, 0, 69, 68, 95, 128, 0, 0, 0, 0, 69, 243, 197,
    16, 2, 1, 2, 1, 2, 1, 2, 1, 2, 1, 2, 1, 2, 3, 4, 2, 1, 2, 1, 2, 1, 2, 1, 2, 1, 2, 1, 2, 1, 2,
    1, 2, 1, 2, 1, 2, 1, 2, 1, 2, 1, 2, 1, 2, 1, 2, 1, 2, 1, 2, 1, 2, 1, 2, 1, 2, 1, 2, 1, 2, 1,
    2, 1, 2, 1, 2, 1, 2, 1, 2, 1, 2, 1, 2, 1, 2, 1, 2, 1, 2, 1, 2, 1, 2, 1, 2, 1, 2, 1, 255, 255,
    149, 160, 0, 0, 255, 255, 171, 160, 1, 4, 255, 255, 157, 144, 0, 8, 255, 255, 171, 160, 1, 12,
    255, 255, 171, 160, 1, 16, 76, 77, 84, 0, 77, 68, 84, 0, 77, 83, 84, 0, 77, 87, 84, 0, 77, 80,
    84, 0, 10, 77, 83, 84, 55, 77, 68, 84, 44, 77, 51, 46, 50, 46, 48, 44, 77, 49, 49, 46, 49, 46,
    48, 10,
];

/// `America/Eirunepe`.
#[verifier::opaque]
pub const AMERICA_EIRUNEPE: [u8; 436] = [
    84, 90, 105, 102, 50, 0, 0, 0, 0, 0, 0, 0, 0, 0, 0, 0, 0, 0, 0, 0, 0, 0, 0, 0, 0, 0, 0, 0, 0,
    0, 0, 0, 0, 0, 0, 0, 0, 0, 0, 1, 0, 0, 0, 1, 0, 0, 0, 0, 0, 0, 0, 84, 90, 105, 102, 50, 0, 0,
    0, 0, 0, 0, 0, 0, 0, 0, 0, 0, 0, 0, 0, 0, 0, 0, 0, 0, 0, 0, 0, 0, 0, 0, 0, 0, 0, 0, 33, 0, 0,
    0, 4, 0, 0, 0, 12, 255, 255, 255, 255, 150, 170, 136, 128, 255, 255, 255, 255, 184, 15, 102,
    0, 255, 255, 255, 255, 184, 253, 92, 192, 255, 255, 255, 255, 185, 241, 80, 80, 255, 255, 255,
    255, 186, 222, 144, 64, 255, 255, 255, 255, 218, 56, 202, 80, 255, 255, 255, 255, 218, 236,
    22, 80, 255, 255, 255, 255, 220, 25, 253, 208, 255, 255, 255, 255, 220, 185, 117, 64, 255,
    255, 255, 255, 221, 251, 49, 80, 255, 255, 255, 255, 222, 155, 250, 64, 255, 255, 255, 255,
    223, 221, 182, 80, 255, 255, 255, 255, 224, 84, 79, 64, 255, 255, 255, 255, 244, 152, 27, 208,
    255, 255, 255, 255, 245, 5, 122, 64, 255, 255, 255, 255, 246, 192, 128, 80, 255, 255, 255,
    255, 247, 14, 58, 192, 255, 255, 255, 255, 248, 81, 72, 80, 255, 255, 255, 255, 248, 199, 225,
    64, 255, 255, 255, 255, 250, 10, 238, 208, 255, 255, 255, 255, 250, 169, 20, 192, 255, 255,
    255, 255, 251, 236, 34, 80, 255, 255, 255, 255, 252, 139, 153, 192, 0, 0, 0, 0, 29, 201, 170,
    80, 0, 0, 0, 0, 30, 120, 243, 192, 0, 0, 0, 0, 31, 160, 81, 208, 0, 0, 0, 0, 32, 51, 235, 192,
    0, 0, 0, 0, 33, 129, 133, 80, 0, 0, 0, 0, 34, 11, 228, 192, 0, 0, 0, 0, 44, 192, 209, 80, 0,
    0, 0, 0, 45, 102, 224, 64, 0, 0, 0, 0, 72, 96, 127, 80, 0, 0, 0, 0, 82, 127, 4, 192, 2, 1, 2,
    1, 2, 1, 2, 1, 2, 1, 2, 1, 2, 1, 2, 1, 2, 1, 2, 1, 2, 1, 2, 1, 2, 1, 2, 1, 2, 1, 2, 3, 2, 255,
    255, 190, 128, 0, 0, 255, 255, 199, 192, 1, 4, 255, 255, 185, 176, 0, 8, 255, 255, 199, 192,
    0, 4, 76, 77, 84, 0, 45, 48, 52, 0, 45, 48, 53, 0, 10, 60, 45, 48, 53, 62, 53, 10,
];

/// `America/El_Salvador`.
#[verifier::opaque]
pub const AMERICA_EL_SALVADOR: [u8; 176] = [
    84, 90, 105, 102, 50, 0, 0, 0, 0, 0, 0, 0, 0, 0, 0, 0, 0, 0, 0, 0, 0, 0, 0, 0, 0, 0, 0, 0, 0,
    0, 0, 0, 0, 0, 0, 0, 0, 0, 0, 1, 0, 0, 0, 1, 0, 0, 0, 0, 0, 0, 0, 84, 90, 105, 102, 50, 0, 0,
    0, 0, 0, 0, 0, 0, 0, 0, 0, 0, 0, 0, 0, 0, 0, 0, 0, 0, 0, 0, 0, 0, 0, 0, 0, 0, 0, 0, 5, 0, 0,
    0, 3, 0, 0, 0, 12, 255, 255, 255, 255, 163, 213, 166, 32, 0, 0, 0, 0, 32, 154, 220, 224, 0, 0,
    0, 0, 33, 92, 155, 80, 0, 0, 0, 0, 34, 122, 190, 224, 0, 0, 0, 0, 35, 60, 125, 80, 2, 1, 2, 1,
    2, 255, 255, 172, 96, 0, 0, 255, 255, 185, 176, 1, 4, 255, 255, 171, 160, 0, 8, 76, 77, 84, 0,
    67, 68, 84, 0, 67, 83, 84, 0, 10, 67, 83, 84, 54, 10,
];

/// `America/Fort_Nelson`.
#[verifier::opaque]
pub const AMERICA_FORT_NELSON: [u8; 1448] = [
    84, 90, 105, 102, 50, 0, 0, 0, 0, 0, 0, 0, 0, 0, 0, 0, 0, 0, 0, 0, 0, 0, 0, 0, 0, 0, 0, 0, 0,
    0, 0, 0, 0, 0, 0, 0, 0, 0, 0, 1, 0, 0, 0, 1, 0, 0, 0, 0, 0, 0, 0, 84, 90, 105, 102, 50, 0, 0,
    0, 0, 0, 0, 0, 0, 0, 0, 0, 0, 0, 0, 0, 0, 0, 0, 0, 0, 0, 0, 0, 0, 0, 0, 0, 0, 0, 0, 143, 0, 0,
    0, 6, 0, 0, 0, 24, 255, 255, 255, 255, 94, 61, 118, 135, 255, 255, 255, 255, 158, 184, 189,
    160, 255, 255, 255, 255, 159, 187, 21, 144, 255, 255, 255, 255, 203, 137, 26, 160, 255, 255,
    255, 255, 210, 35, 244, 112, 255, 255, 255, 255, 210, 97, 38, 16, 255, 255, 255, 255, 213, 85,
    241, 32, 255, 255, 255, 255, 214, 32, 234, 16, 255, 255, 255, 255, 215, 53, 211, 32, 255, 255,
    255, 255, 216, 0, 204, 16, 255, 255, 255, 255, 217, 21, 181, 32, 255, 255, 255, 255, 217, 224,
    174, 16, 255, 255, 255, 255, 218, 254, 209, 160, 255, 255, 255, 255, 219, 192, 144, 16, 255,
    255, 255, 255, 220, 222, 179, 160, 255, 255, 255, 255, 221, 169, 172, 144, 255, 255, 255, 255,
    222, 190, 149, 160, 255, 255, 255, 255, 223, 137, 142, 144, 255, 255, 255, 255, 224, 158, 119,
    160, 255, 255, 255, 255, 225, 105, 112, 144, 255, 255, 255, 255, 226, 126, 89, 160, 255, 255,
    255, 255, 227, 73, 82, 144, 255, 255, 255, 255, 228, 94, 59, 160, 255, 255, 255, 255, 229, 41,
    52, 144, 255, 255, 255, 255, 230, 71, 88, 32, 255, 255, 255, 255, 231, 18, 81, 16, 255, 255,
    255, 255, 232, 39, 58, 32, 255, 255, 255, 255, 232, 242, 51, 16, 255, 255, 255, 255, 234, 7,
    28, 32, 255, 255, 255, 255, 234, 210, 21, 16, 255, 255, 255, 255, 235, 230, 254, 32, 255, 255,
    255, 255, 236, 177, 247, 16, 255, 255, 255, 255, 237, 198, 224, 32, 255, 255, 255, 255, 238,
    145, 217, 16, 255, 255, 255, 255, 239, 175, 252, 160, 255, 255, 255, 255, 240, 113, 187, 16,
    255, 255, 255, 255, 241, 143, 222, 160, 255, 255, 255, 255, 242, 127, 193, 144, 255, 255, 255,
    255, 243, 111, 192, 160, 255, 255, 255, 255, 244, 95, 163, 144, 255, 255, 255, 255, 245, 79,
    162, 160, 255, 255, 255, 255, 246, 63, 133, 144, 255, 255, 255, 255, 247, 47, 132, 160, 255,
    255, 255, 255, 248, 40, 162, 16, 255, 255, 255, 255, 249, 15, 102, 160, 255, 255, 255, 255,
    250, 8, 132, 16, 255, 255, 255, 255, 250, 248, 131, 32, 255, 255, 255, 255, 251, 232, 102, 16,
    255, 255, 255, 255, 252, 216, 101, 32, 255, 255, 255, 255, 253, 200, 72, 16, 255, 255, 255,
    255, 254, 184, 71, 32, 255, 255, 255, 255, 255, 168, 42, 16, 0, 0, 0, 0, 0, 152, 41, 32, 0, 0,
    0, 0, 1, 136, 12, 16, 0, 0, 0, 0, 2, 120, 11, 32, 0, 0, 0, 0, 3, 113, 40, 144, 0, 0, 0, 0, 4,
    97, 39, 160, 0, 0, 0, 0, 5, 81, 10, 144, 0, 0, 0, 0, 6, 65, 9, 160, 0, 0, 0, 0, 7, 48, 236,
    144, 0, 0, 0, 0, 8, 32, 235, 160, 0, 0, 0, 0, 9, 16, 206, 144, 0, 0, 0, 0, 10, 0, 205, 160, 0,
    0, 0, 0, 10, 240, 176, 144, 0, 0, 0, 0, 11, 224, 175, 160, 0, 0, 0, 0, 12, 217, 205, 16, 0, 0,
    0, 0, 13, 192, 145, 160, 0, 0, 0, 0, 14, 185, 175, 16, 0, 0, 0, 0, 15, 169, 174, 32, 0, 0, 0,
    0, 16, 153, 145, 16, 0, 0, 0, 0, 17, 137, 144, 32, 0, 0, 0, 0, 18, 121, 115, 16, 0, 0, 0, 0,
    19, 105, 114, 32, 0, 0, 0, 0, 20, 89, 85, 16, 0, 0, 0, 0, 21, 73, 84, 32, 0, 0, 0, 0, 22, 57,
    55, 16, 0, 0, 0, 0, 23, 41, 54, 32, 0, 0, 0, 0, 24, 34, 83, 144, 0, 0, 0, 0, 25, 9, 24, 32, 0,
    0, 0, 0, 26, 2, 53, 144, 0, 0, 0, 0, 26, 242, 52, 160, 0, 0, 0, 0, 27, 226, 23, 144, 0, 0, 0,
    0, 28, 210, 22, 160, 0, 0, 0, 0, 29, 193, 249, 144, 0, 0, 0, 0, 30, 177, 248, 160, 0, 0, 0, 0,
    31, 161, 219, 144, 0, 0, 0, 0, 32, 118, 43, 32, 0, 0, 0, 0, 33, 129, 189, 144, 0, 0, 0, 0, 34,
    86, 13, 32, 0, 0, 0, 0, 35, 106, 218, 16, 0, 0, 0, 0, 36, 53, 239, 32, 0, 0, 0, 0, 37, 74,
    188, 16, 0, 0, 0, 0, 38, 21, 209, 32, 0, 0, 0, 0, 39, 42, 158, 16, 0, 0, 0, 0, 39, 254, 237,
    160, 0, 0, 0, 0, 41, 10, 128, 16, 0, 0, 0, 0, 41, 222, 207, 160, 0, 0, 0, 0, 42, 234, 98, 16,
    0, 0, 0, 0, 43, 190, 177, 160, 0, 0, 0, 0, 44, 211, 126, 144, 0, 0, 0, 0, 45, 158, 147, 160,
    0, 0, 0, 0, 46, 179, 96, 144, 0, 0, 0, 0, 47, 126, 117, 160, 0, 0, 0, 0, 48, 147, 66, 144, 0,
    0, 0, 0, 49, 103, 146, 32, 0, 0, 0, 0, 50, 115, 36, 144, 0, 0, 0, 0, 51, 71, 116, 32, 0, 0, 0,
    0, 52, 83, 6, 144, 0, 0, 0, 0, 53, 39, 86, 32, 0, 0, 0, 0, 54, 50, 232, 144, 0, 0, 0, 0, 55,
    7, 56, 32, 0, 0, 0, 0, 56, 28, 5, 16, 0, 0, 0, 0, 56, 231, 26, 32, 0, 0, 0, 0, 57, 251, 231,
    16, 0, 0, 0, 0, 58, 198, 252, 32, 0, 0, 0, 0, 59, 219, 201, 16, 0, 0, 0, 0, 60, 176, 24, 160,
    0, 0, 0, 0, 61, 187, 171, 16, 0, 0, 0, 0, 62, 143, 250, 160, 0, 0, 0, 0, 63, 155, 141, 16, 0,
    0, 0, 0, 64, 111, 220, 160, 0, 0, 0, 0, 65, 132, 169, 144, 0, 0, 0, 0, 66, 79, 190, 160, 0, 0,
    0, 0, 67, 100, 139, 144, 0, 0, 0, 0, 68, 47, 160, 160, 0, 0, 0, 0, 69, 68, 109, 144, 0, 0, 0,
    0, 69, 243, 211, 32, 0, 0, 0, 0, 71, 45, 138, 16, 0, 0, 0, 0, 71, 211, 181, 32, 0, 0, 0, 0,
    73, 13, 108, 16, 0, 0, 0, 0, 73, 179, 151, 32, 0, 0, 0, 0, 74, 237, 78, 16, 0, 0, 0, 0, 75,
    156, 179, 160, 0, 0, 0, 0, 76, 214, 106, 144, 0, 0, 0, 0, 77, 124, 149, 160, 0, 0, 0, 0, 78,
    182, 76, 144, 0, 0, 0, 0, 79, 92, 119, 160, 0, 0, 0, 0, 80, 150, 46, 144, 0, 0, 0, 0, 81, 60,
    89, 160, 0, 0, 0, 0, 82, 118, 16, 144, 0, 0, 0, 0, 83, 28, 59, 160, 0, 0, 0, 0, 84, 85, 242,
    144, 0, 0, 0, 0, 84, 252, 29, 160, 2, 1, 2, 3, 4, 2, 1, 2, 1, 2, 1, 2, 1, 2, 1, 2, 1, 2, 1, 2,
    1, 2, 1, 2, 1, 2, 1, 2, 1, 2, 1, 2, 1, 2, 1, 2, 1, 2, 1, 2, 1, 2, 1, 2, 1, 2, 1, 2, 1, 2, 1,
    2, 1, 2, 1, 2, 1, 2, 1, 2, 1, 2, 1, 2, 1, 2, 1, 2, 1, 2, 1, 2, 1, 2, 1, 2, 1, 2, 1, 2, 1, 2,
    1, 2, 1, 2, 1, 2, 1, 2, 1, 2, 1, 2, 1, 2, 1, 2, 1, 2, 1, 2, 1, 2, 1, 2, 1, 2, 1, 2, 1, 2, 1,
    2, 1, 2, 1, 2, 1, 2, 1, 2, 1, 2, 1, 2, 1, 2, 1, 2, 1, 2, 1, 2, 1, 2, 1, 2, 1, 2, 1, 2, 5, 255,
    255, 140, 249, 0, 0, 255, 255, 157, 144, 1, 4, 255, 255, 143, 128, 0, 8, 255, 255, 157, 144,
    1, 12, 255, 255, 157, 144, 1, 16, 255, 255, 157, 144, 0, 20, 76, 77, 84, 0, 80, 68, 84, 0, 80,
    83, 84, 0, 80, 87, 84, 0, 80, 80, 84, 0, 77, 83, 84, 0, 10, 77, 83, 84, 55, 10,
];

/// `America/Fortaleza`.
#[verifier::opaque]
pub const AMERICA_FORTALEZA: [u8; 484] = [
    84, 90, 105, 102, 50, 0, 0, 0, 0, 0, 0, 0, 0, 0, 0, 0, 0, 0, 0, 0, 0, 0, 0, 0, 0, 0, 0, 0, 0,
    0, 0, 0, 0, 0, 0, 0, 0, 0, 0, 1, 0, 0, 0, 1, 0, 0, 0, 0, 0, 0, 0, 84, 90, 105, 102, 50, 0, 0,
    0, 0, 0, 0, 0, 0, 0, 0, 0, 0, 0, 0, 0, 0, 0, 0, 0, 0, 0, 0, 0, 0, 0, 0, 0, 0, 0, 0, 39, 0, 0,
    0, 3, 0, 0, 0, 12, 255, 255, 255, 255, 150, 170, 107, 24, 255, 255, 255, 255, 184, 15, 73,
    224, 255, 255, 255, 255, 184, 253, 64, 160, 255, 255, 255, 255, 185, 241, 52, 48, 255, 255,
    255, 255, 186, 222, 116, 32, 255, 255, 255, 255, 218, 56, 174, 48, 255, 255, 255, 255, 218,
    235, 250, 48, 255, 255, 255, 255, 220, 25, 225, 176, 255, 255, 255, 255, 220, 185, 89, 32,
    255, 255, 255, 255, 221, 251, 21, 48, 255, 255, 255, 255, 222, 155, 222, 32, 255, 255, 255,
    255, 223, 221, 154, 48, 255, 255, 255, 255, 224, 84, 51, 32, 255, 255, 255, 255, 244, 151,
    255, 176, 255, 255, 255, 255, 245, 5, 94, 32, 255, 255, 255, 255, 246, 192, 100, 48, 255, 255,
    255, 255, 247, 14, 30, 160, 255, 255, 255, 255, 248, 81, 44, 48, 255, 255, 255, 255, 248, 199,
    197, 32, 255, 255, 255, 255, 250, 10, 210, 176, 255, 255, 255, 255, 250, 168, 248, 160, 255,
    255, 255, 255, 251, 236, 6, 48, 255, 255, 255, 255, 252, 139, 125, 160, 0, 0, 0, 0, 29, 201,
    142, 48, 0, 0, 0, 0, 30, 120, 215, 160, 0, 0, 0, 0, 31, 160, 53, 176, 0, 0, 0, 0, 32, 51, 207,
    160, 0, 0, 0, 0, 33, 129, 105, 48, 0, 0, 0, 0, 34, 11, 200, 160, 0, 0, 0, 0, 35, 88, 16, 176,
    0, 0, 0, 0, 35, 226, 112, 32, 0, 0, 0, 0, 37, 55, 242, 176, 0, 0, 0, 0, 37, 212, 199, 32, 0,
    0, 0, 0, 55, 246, 198, 176, 0, 0, 0, 0, 56, 184, 133, 32, 0, 0, 0, 0, 57, 223, 227, 48, 0, 0,
    0, 0, 57, 242, 74, 32, 0, 0, 0, 0, 59, 200, 255, 176, 0, 0, 0, 0, 60, 111, 14, 160, 2, 1, 2,
    1, 2, 1, 2, 1, 2, 1, 2, 1, 2, 1, 2, 1, 2, 1, 2, 1, 2, 1, 2, 1, 2, 1, 2, 1, 2, 1, 2, 1, 2, 1,
    2, 1, 2, 1, 2, 255, 255, 219, 232, 0, 0, 255, 255, 227, 224, 1, 4, 255, 255, 213, 208, 0, 8,
    76, 77, 84, 0, 45, 48, 50, 0, 45, 48, 51, 0, 10, 60, 45, 48, 51, 62, 51, 10,
];

/// `America/Glace_Bay`.
#[verifier::opaque]
pub const AMERICA_GLACE_BAY: [u8; 880] = [
    84, 90, 105, 102, 50, 0, 0, 0, 0, 0, 0, 0, 0, 0, 0, 0, 0, 0, 0, 0, 0, 0, 0, 0, 0, 0, 0, 0, 0,
    0, 0, 0, 0, 0, 0, 0, 0, 0, 0, 1, 0, 0, 0, 1, 0, 0, 0, 0, 0, 0, 0, 84, 90, 105, 102, 50, 0, 0,
    0, 0, 0, 0, 0, 0, 0, 0, 0, 0, 0, 0, 0, 0, 0, 0, 0, 0, 0, 0, 0, 0, 0, 0, 0, 0, 0, 0, 79, 0, 0,
    0, 5, 0, 0, 0, 20, 255, 255, 255, 255, 128, 241, 168, 52, 255, 255, 255, 255, 158, 184, 133,
    96, 255, 255, 255, 255, 159, 186, 221, 80, 255, 255, 255, 255, 203, 136, 226, 96, 255, 255,
    255, 255, 210, 35, 244, 112, 255, 255, 255, 255, 210, 96, 237, 208, 255, 255, 255, 255, 224,
    158, 63, 96, 255, 255, 255, 255, 225, 105, 56, 80, 0, 0, 0, 0, 4, 96, 239, 96, 0, 0, 0, 0, 5,
    80, 210, 80, 0, 0, 0, 0, 6, 64, 209, 96, 0, 0, 0, 0, 7, 48, 180, 80, 0, 0, 0, 0, 8, 32, 179,
    96, 0, 0, 0, 0, 9, 16, 150, 80, 0, 0, 0, 0, 10, 0, 149, 96, 0, 0, 0, 0, 10, 240, 120, 80, 0,
    0, 0, 0, 11, 224, 119, 96, 0, 0, 0, 0, 12, 217, 148, 208, 0, 0, 0, 0, 13, 192, 89, 96, 0, 0,
    0, 0, 14, 185, 118, 208, 0, 0, 0, 0, 15, 169, 117, 224, 0, 0, 0, 0, 16, 153, 88, 208, 0, 0, 0,
    0, 17, 137, 87, 224, 0, 0, 0, 0, 18, 121, 58, 208, 0, 0, 0, 0, 19, 105, 57, 224, 0, 0, 0, 0,
    20, 89, 28, 208, 0, 0, 0, 0, 21, 73, 27, 224, 0, 0, 0, 0, 22, 56, 254, 208, 0, 0, 0, 0, 23,
    40, 253, 224, 0, 0, 0, 0, 24, 34, 27, 80, 0, 0, 0, 0, 25, 8, 223, 224, 0, 0, 0, 0, 26, 1, 253,
    80, 0, 0, 0, 0, 26, 241, 252, 96, 0, 0, 0, 0, 27, 225, 223, 80, 0, 0, 0, 0, 28, 209, 222, 96,
    0, 0, 0, 0, 29, 193, 193, 80, 0, 0, 0, 0, 30, 177, 192, 96, 0, 0, 0, 0, 31, 161, 163, 80, 0,
    0, 0, 0, 32, 117, 242, 224, 0, 0, 0, 0, 33, 129, 133, 80, 0, 0, 0, 0, 34, 85, 212, 224, 0, 0,
    0, 0, 35, 106, 161, 208, 0, 0, 0, 0, 36, 53, 182, 224, 0, 0, 0, 0, 37, 74, 131, 208, 0, 0, 0,
    0, 38, 21, 152, 224, 0, 0, 0, 0, 39, 42, 101, 208, 0, 0, 0, 0, 39, 254, 181, 96, 0, 0, 0, 0,
    41, 10, 71, 208, 0, 0, 0, 0, 41, 222, 151, 96, 0, 0, 0, 0, 42, 234, 41, 208, 0, 0, 0, 0, 43,
    190, 121, 96, 0, 0, 0, 0, 44, 211, 70, 80, 0, 0, 0, 0, 45, 158, 91, 96, 0, 0, 0, 0, 46, 179,
    40, 80, 0, 0, 0, 0, 47, 126, 61, 96, 0, 0, 0, 0, 48, 147, 10, 80, 0, 0, 0, 0, 49, 103, 89,
    224, 0, 0, 0, 0, 50, 114, 236, 80, 0, 0, 0, 0, 51, 71, 59, 224, 0, 0, 0, 0, 52, 82, 206, 80,
    0, 0, 0, 0, 53, 39, 29, 224, 0, 0, 0, 0, 54, 50, 176, 80, 0, 0, 0, 0, 55, 6, 255, 224, 0, 0,
    0, 0, 56, 27, 204, 208, 0, 0, 0, 0, 56, 230, 225, 224, 0, 0, 0, 0, 57, 251, 174, 208, 0, 0, 0,
    0, 58, 198, 195, 224, 0, 0, 0, 0, 59, 219, 144, 208, 0, 0, 0, 0, 60, 175, 224, 96, 0, 0, 0, 0,
    61, 187, 114, 208, 0, 0, 0, 0, 62, 143, 194, 96, 0, 0, 0, 0, 63, 155, 84, 208, 0, 0, 0, 0, 64,
    111, 164, 96, 0, 0, 0, 0, 65, 132, 113, 80, 0, 0, 0, 0, 66, 79, 134, 96, 0, 0, 0, 0, 67, 100,
    83, 80, 0, 0, 0, 0, 68, 47, 104, 96, 0, 0, 0, 0, 69, 68, 53, 80, 0, 0, 0, 0, 69, 243, 154,
    224, 2, 1, 2, 3, 4, 2, 1, 2, 1, 2, 1, 2, 1, 2, 1, 2, 1, 2, 1, 2, 1, 2, 1, 2, 1, 2, 1, 2, 1, 2,
    1, 2, 1, 2, 1, 2, 1, 2, 1, 2, 1, 2, 1, 2, 1, 2, 1, 2, 1, 2, 1, 2, 1, 2, 1, 2, 1, 2, 1, 2, 1,
    2, 1, 2, 1, 2, 1, 2, 1, 2, 1, 2, 1, 2, 1, 2, 1, 2, 1, 255, 255, 199, 204, 0, 0, 255, 255, 213,
    208, 1, 4, 255, 255, 199, 192, 0, 8, 255, 255, 213, 208, 1, 12, 255, 255, 213, 208, 1, 16, 76,
    77, 84, 0, 65, 68, 84, 0, 65, 83, 84, 0, 65, 87, 84, 0, 65, 80, 84, 0, 10, 65, 83, 84, 52, 65,
    68, 84, 44, 77, 51, 46, 50, 46, 48, 44, 77, 49, 49, 46, 49, 46, 48, 10,
];

/// `America/Goose_Bay`.
#[verifier::opaque]
pub const AMERICA_GOOSE_BAY: [u8; 1580] = [
    84, 90, 105, 102, 50, 0, 0, 0, 0, 0, 0, 0, 0, 0, 0, 0, 0, 0, 0, 0, 0, 0, 0, 0, 0, 0, 0, 0, 0,
    0, 0, 0, 0, 0, 0, 0, 0, 0, 0, 1, 0, 0, 0, 1, 0, 0, 0, 0, 0, 0, 0, 84, 90, 105, 102, 50, 0, 0,
    0, 0, 0, 0, 0, 0, 0, 0, 0, 0, 0, 0, 0, 0, 0, 0, 0, 0, 0, 0, 0, 0, 0, 0, 0, 0, 0, 0, 152, 0, 0,
    0, 10, 0, 0, 0, 33, 255, 255, 255, 255, 94, 61, 60, 36, 255, 255, 255, 255, 158, 184, 126,
    140, 255, 255, 255, 255, 159, 186, 214, 124, 255, 255, 255, 255, 190, 158, 77, 108, 255, 255,
    255, 255, 192, 184, 49, 56, 255, 255, 255, 255, 193, 121, 239, 168, 255, 255, 255, 255, 194,
    152, 19, 56, 255, 255, 255, 255, 195, 89, 209, 168, 255, 255, 255, 255, 196, 119, 245, 56,
    255, 255, 255, 255, 197, 57, 179, 168, 255, 255, 255, 255, 198, 97, 17, 184, 255, 255, 255,
    255, 199, 25, 149, 168, 255, 255, 255, 255, 200, 64, 243, 184, 255, 255, 255, 255, 201, 2,
    178, 40, 255, 255, 255, 255, 202, 32, 213, 184, 255, 255, 255, 255, 202, 226, 148, 40, 255,
    255, 255, 255, 204, 0, 183, 184, 255, 255, 255, 255, 210, 35, 244, 112, 255, 255, 255, 255,
    210, 96, 230, 200, 255, 255, 255, 255, 211, 136, 68, 216, 255, 255, 255, 255, 212, 74, 3, 72,
    255, 255, 255, 255, 213, 104, 38, 216, 255, 255, 255, 255, 214, 41, 229, 72, 255, 255, 255,
    255, 215, 72, 8, 216, 255, 255, 255, 255, 216, 9, 199, 72, 255, 255, 255, 255, 217, 39, 234,
    216, 255, 255, 255, 255, 217, 233, 169, 72, 255, 255, 255, 255, 219, 17, 7, 88, 255, 255, 255,
    255, 219, 210, 197, 200, 255, 255, 255, 255, 220, 222, 116, 88, 255, 255, 255, 255, 221, 169,
    109, 72, 255, 255, 255, 255, 222, 190, 86, 88, 255, 255, 255, 255, 223, 137, 79, 72, 255, 255,
    255, 255, 224, 158, 56, 88, 255, 255, 255, 255, 225, 105, 49, 72, 255, 255, 255, 255, 226,
    126, 26, 88, 255, 255, 255, 255, 227, 73, 19, 72, 255, 255, 255, 255, 228, 93, 252, 88, 255,
    255, 255, 255, 229, 40, 245, 72, 255, 255, 255, 255, 230, 71, 24, 216, 255, 255, 255, 255,
    231, 18, 17, 200, 255, 255, 255, 255, 232, 38, 250, 216, 255, 255, 255, 255, 232, 241, 243,
    200, 255, 255, 255, 255, 234, 6, 220, 216, 255, 255, 255, 255, 234, 209, 213, 200, 255, 255,
    255, 255, 235, 230, 190, 216, 255, 255, 255, 255, 236, 177, 183, 200, 255, 255, 255, 255, 237,
    198, 160, 216, 255, 255, 255, 255, 238, 191, 190, 72, 255, 255, 255, 255, 239, 175, 189, 88,
    255, 255, 255, 255, 240, 159, 160, 72, 255, 255, 255, 255, 241, 143, 159, 88, 255, 255, 255,
    255, 242, 127, 130, 72, 255, 255, 255, 255, 243, 111, 129, 88, 255, 255, 255, 255, 244, 95,
    100, 72, 255, 255, 255, 255, 245, 79, 99, 88, 255, 255, 255, 255, 246, 63, 70, 72, 255, 255,
    255, 255, 247, 47, 69, 88, 255, 255, 255, 255, 248, 40, 98, 200, 255, 255, 255, 255, 248, 218,
    107, 88, 255, 255, 255, 255, 249, 15, 46, 96, 255, 255, 255, 255, 250, 8, 75, 208, 255, 255,
    255, 255, 250, 248, 74, 224, 255, 255, 255, 255, 251, 232, 45, 208, 255, 255, 255, 255, 252,
    216, 44, 224, 255, 255, 255, 255, 253, 200, 15, 208, 255, 255, 255, 255, 254, 184, 14, 224,
    255, 255, 255, 255, 255, 167, 241, 208, 0, 0, 0, 0, 0, 151, 240, 224, 0, 0, 0, 0, 1, 135, 211,
    208, 0, 0, 0, 0, 2, 119, 210, 224, 0, 0, 0, 0, 3, 112, 240, 80, 0, 0, 0, 0, 4, 96, 239, 96, 0,
    0, 0, 0, 5, 80, 210, 80, 0, 0, 0, 0, 6, 64, 209, 96, 0, 0, 0, 0, 7, 48, 180, 80, 0, 0, 0, 0,
    8, 32, 179, 96, 0, 0, 0, 0, 9, 16, 150, 80, 0, 0, 0, 0, 10, 0, 149, 96, 0, 0, 0, 0, 10, 240,
    120, 80, 0, 0, 0, 0, 11, 224, 119, 96, 0, 0, 0, 0, 12, 217, 148, 208, 0, 0, 0, 0, 13, 192, 89,
    96, 0, 0, 0, 0, 14, 185, 118, 208, 0, 0, 0, 0, 15, 169, 117, 224, 0, 0, 0, 0, 16, 153, 88,
    208, 0, 0, 0, 0, 17, 137, 87, 224, 0, 0, 0, 0, 18, 121, 58, 208, 0, 0, 0, 0, 19, 105, 57, 224,
    0, 0, 0, 0, 20, 89, 28, 208, 0, 0, 0, 0, 21, 73, 27, 224, 0, 0, 0, 0, 22, 56, 254, 208, 0, 0,
    0, 0, 23, 40, 253, 224, 0, 0, 0, 0, 24, 34, 27, 80, 0, 0, 0, 0, 25, 8, 223, 224, 0, 0, 0, 0,
    26, 1, 253, 80, 0, 0, 0, 0, 26, 241, 252, 96, 0, 0, 0, 0, 27, 225, 223, 80, 0, 0, 0, 0, 28,
    209, 222, 96, 0, 0, 0, 0, 29, 193, 193, 80, 0, 0, 0, 0, 30, 177, 192, 96, 0, 0, 0, 0, 31, 161,
    163, 80, 0, 0, 0, 0, 32, 117, 214, 252, 0, 0, 0, 0, 33, 129, 105, 108, 0, 0, 0, 0, 34, 85,
    184, 252, 0, 0, 0, 0, 35, 106, 119, 220, 0, 0, 0, 0, 36, 53, 154, 252, 0, 0, 0, 0, 37, 74,
    103, 236, 0, 0, 0, 0, 38, 21, 124, 252, 0, 0, 0, 0, 39, 42, 73, 236, 0, 0, 0, 0, 39, 254, 153,
    124, 0, 0, 0, 0, 41, 10, 43, 236, 0, 0, 0, 0, 41, 222, 123, 124, 0, 0, 0, 0, 42, 234, 13, 236,
    0, 0, 0, 0, 43, 190, 93, 124, 0, 0, 0, 0, 44, 211, 42, 108, 0, 0, 0, 0, 45, 158, 63, 124, 0,
    0, 0, 0, 46, 179, 12, 108, 0, 0, 0, 0, 47, 126, 33, 124, 0, 0, 0, 0, 48, 146, 238, 108, 0, 0,
    0, 0, 49, 103, 61, 252, 0, 0, 0, 0, 50, 114, 208, 108, 0, 0, 0, 0, 51, 71, 31, 252, 0, 0, 0,
    0, 52, 82, 178, 108, 0, 0, 0, 0, 53, 39, 1, 252, 0, 0, 0, 0, 54, 50, 148, 108, 0, 0, 0, 0, 55,
    6, 227, 252, 0, 0, 0, 0, 56, 27, 176, 236, 0, 0, 0, 0, 56, 230, 197, 252, 0, 0, 0, 0, 57, 251,
    146, 236, 0, 0, 0, 0, 58, 198, 167, 252, 0, 0, 0, 0, 59, 219, 116, 236, 0, 0, 0, 0, 60, 175,
    196, 124, 0, 0, 0, 0, 61, 187, 86, 236, 0, 0, 0, 0, 62, 143, 166, 124, 0, 0, 0, 0, 63, 155,
    56, 236, 0, 0, 0, 0, 64, 111, 136, 124, 0, 0, 0, 0, 65, 132, 85, 108, 0, 0, 0, 0, 66, 79, 106,
    124, 0, 0, 0, 0, 67, 100, 55, 108, 0, 0, 0, 0, 68, 47, 76, 124, 0, 0, 0, 0, 69, 68, 25, 108,
    0, 0, 0, 0, 69, 243, 126, 252, 0, 0, 0, 0, 71, 45, 53, 236, 0, 0, 0, 0, 71, 211, 96, 252, 0,
    0, 0, 0, 73, 13, 23, 236, 0, 0, 0, 0, 73, 179, 66, 252, 0, 0, 0, 0, 74, 236, 249, 236, 0, 0,
    0, 0, 75, 156, 95, 124, 0, 0, 0, 0, 76, 214, 22, 108, 0, 0, 0, 0, 77, 124, 65, 124, 0, 0, 0,
    0, 78, 175, 96, 176, 1, 2, 1, 3, 4, 3, 4, 3, 4, 3, 4, 3, 4, 3, 4, 3, 6, 5, 3, 4, 3, 4, 3, 4,
    3, 4, 3, 4, 3, 4, 3, 4, 3, 4, 3, 4, 3, 4, 3, 4, 3, 4, 3, 4, 3, 4, 3, 4, 3, 4, 3, 4, 3, 4, 3,
    4, 3, 4, 3, 8, 7, 8, 7, 8, 7, 8, 7, 8, 7, 8, 7, 8, 7, 8, 7, 8, 7, 8, 7, 8, 7, 8, 7, 8, 7, 8,
    7, 8, 7, 8, 7, 8, 7, 8, 7, 8, 7, 8, 7, 8, 7, 8, 7, 8, 9, 8, 7, 8, 7, 8, 7, 8, 7, 8, 7, 8, 7,
    8, 7, 8, 7, 8, 7, 8, 7, 8, 7, 8, 7, 8, 7, 8, 7, 8, 7, 8, 7, 8, 7, 8, 7, 8, 7, 8, 7, 8, 7, 8,
    7, 8, 7, 7, 255, 255, 199, 92, 0, 0, 255, 255, 206, 148, 0, 4, 255, 255, 220, 164, 1, 8, 255,
    255, 206, 200, 0, 4, 255, 255, 220, 216, 1, 8, 255, 255, 220, 216, 1, 12, 255, 255, 220, 216,
    1, 16, 255, 255, 213, 208, 1, 20, 255, 255, 199, 192, 0, 24, 255, 255, 227, 224, 1, 28, 76,
    77, 84, 0, 78, 83, 84, 0, 78, 68, 84, 0, 78, 80, 84, 0, 78, 87, 84, 0, 65, 68, 84, 0, 65, 83,
    84, 0, 65, 68, 68, 84, 0, 10, 65, 83, 84, 52, 65, 68, 84, 44, 77, 51, 46, 50, 46, 48, 44, 77,
    49, 49, 46, 49, 46, 48, 10,
];

/// `America/Grand_Turk`.
#[verifier::opaque]
pub const AMERICA_GRAND_TURK: [u8; 853] = [
    84, 90, 105, 102, 50, 0, 0, 0, 0, 0, 0, 0, 0, 0, 0, 0, 0, 0, 0, 0, 0, 0, 0, 0, 0, 0, 0, 0, 0,
    0, 0, 0, 0, 0, 0, 0, 0, 0, 0, 1, 0, 0, 0, 1, 0, 0, 0, 0, 0, 0, 0, 84, 90, 105, 102, 50, 0, 0,
    0, 0, 0, 0, 0, 0, 0, 0, 0, 0, 0, 0, 0, 0, 0, 0, 0, 0, 0, 0, 0, 0, 0, 0, 0, 0, 0, 0, 76, 0, 0,
    0, 5, 0, 0, 0, 20, 255, 255, 255, 255, 105, 135, 30, 48, 255, 255, 255, 255, 147, 15, 180,
    254, 0, 0, 0, 0, 17, 137, 101, 240, 0, 0, 0, 0, 18, 121, 72, 224, 0, 0, 0, 0, 19, 105, 71,
    240, 0, 0, 0, 0, 20, 89, 42, 224, 0, 0, 0, 0, 21, 73, 41, 240, 0, 0, 0, 0, 22, 57, 12, 224, 0,
    0, 0, 0, 23, 41, 11, 240, 0, 0, 0, 0, 24, 34, 41, 96, 0, 0, 0, 0, 25, 8, 237, 240, 0, 0, 0, 0,
    26, 2, 11, 96, 0, 0, 0, 0, 26, 242, 10, 112, 0, 0, 0, 0, 27, 225, 237, 96, 0, 0, 0, 0, 28,
    209, 236, 112, 0, 0, 0, 0, 29, 193, 207, 96, 0, 0, 0, 0, 30, 177, 206, 112, 0, 0, 0, 0, 31,
    161, 177, 96, 0, 0, 0, 0, 32, 118, 0, 240, 0, 0, 0, 0, 33, 129, 147, 96, 0, 0, 0, 0, 34, 85,
    226, 240, 0, 0, 0, 0, 35, 106, 175, 224, 0, 0, 0, 0, 36, 53, 196, 240, 0, 0, 0, 0, 37, 74,
    145, 224, 0, 0, 0, 0, 38, 21, 166, 240, 0, 0, 0, 0, 39, 42, 115, 224, 0, 0, 0, 0, 39, 254,
    195, 112, 0, 0, 0, 0, 41, 10, 85, 224, 0, 0, 0, 0, 41, 222, 165, 112, 0, 0, 0, 0, 42, 234, 55,
    224, 0, 0, 0, 0, 43, 190, 135, 112, 0, 0, 0, 0, 44, 211, 84, 96, 0, 0, 0, 0, 45, 158, 105,
    112, 0, 0, 0, 0, 46, 179, 54, 96, 0, 0, 0, 0, 47, 126, 75, 112, 0, 0, 0, 0, 48, 147, 24, 96,
    0, 0, 0, 0, 49, 103, 103, 240, 0, 0, 0, 0, 50, 114, 250, 96, 0, 0, 0, 0, 51, 71, 73, 240, 0,
    0, 0, 0, 52, 82, 220, 96, 0, 0, 0, 0, 53, 39, 43, 240, 0, 0, 0, 0, 54, 50, 190, 96, 0, 0, 0,
    0, 55, 7, 13, 240, 0, 0, 0, 0, 56, 27, 218, 224, 0, 0, 0, 0, 56, 230, 239, 240, 0, 0, 0, 0,
    57, 251, 188, 224, 0, 0, 0, 0, 58, 198, 209, 240, 0, 0, 0, 0, 59, 219, 158, 224, 0, 0, 0, 0,
    60, 175, 238, 112, 0, 0, 0, 0, 61, 187, 128, 224, 0, 0, 0, 0, 62, 143, 208, 112, 0, 0, 0, 0,
    63, 155, 98, 224, 0, 0, 0, 0, 64, 111, 178, 112, 0, 0, 0, 0, 65, 132, 127, 96, 0, 0, 0, 0, 66,
    79, 148, 112, 0, 0, 0, 0, 67, 100, 97, 96, 0, 0, 0, 0, 68, 47, 118, 112, 0, 0, 0, 0, 69, 68,
    67, 96, 0, 0, 0, 0, 69, 243, 168, 240, 0, 0, 0, 0, 71, 45, 95, 224, 0, 0, 0, 0, 71, 211, 138,
    240, 0, 0, 0, 0, 73, 13, 65, 224, 0, 0, 0, 0, 73, 179, 108, 240, 0, 0, 0, 0, 74, 237, 35, 224,
    0, 0, 0, 0, 75, 156, 137, 112, 0, 0, 0, 0, 76, 214, 64, 96, 0, 0, 0, 0, 77, 124, 107, 112, 0,
    0, 0, 0, 78, 182, 34, 96, 0, 0, 0, 0, 79, 92, 77, 112, 0, 0, 0, 0, 80, 150, 4, 96, 0, 0, 0, 0,
    81, 60, 47, 112, 0, 0, 0, 0, 82, 117, 230, 96, 0, 0, 0, 0, 83, 28, 17, 112, 0, 0, 0, 0, 84,
    85, 200, 96, 0, 0, 0, 0, 84, 251, 243, 112, 0, 0, 0, 0, 90, 164, 211, 240, 1, 2, 3, 2, 3, 2,
    3, 2, 3, 2, 3, 2, 3, 2, 3, 2, 3, 2, 3, 2, 3, 2, 3, 2, 3, 2, 3, 2, 3, 2, 3, 2, 3, 2, 3, 2, 3,
    2, 3, 2, 3, 2, 3, 2, 3, 2, 3, 2, 3, 2, 3, 2, 3, 2, 3, 2, 3, 2, 3, 2, 3, 2, 3, 2, 3, 2, 3, 2,
    3, 2, 3, 2, 3, 2, 4, 3, 255, 255, 189, 80, 0, 0, 255, 255, 184, 2, 0, 4, 255, 255, 185, 176,
    0, 8, 255, 255, 199, 192, 1, 12, 255, 255, 199, 192, 0, 16, 76, 77, 84, 0, 75, 77, 84, 0, 69,
    83, 84, 0, 69, 68, 84, 0, 65, 83, 84, 0, 10, 69, 83, 84, 53, 69, 68, 84, 44, 77, 51, 46, 50,
    46, 48, 44, 77, 49, 49, 46, 49, 46, 48, 10,
];

/// `America/Guatemala`.
#[verifier::opaque]
pub const AMERICA_GUATEMALA: [u8; 212] = [
    84, 90, 105, 102, 50, 0, 0, 0, 0, 0, 0, 0, 0, 0, 0, 0, 0, 0, 0, 0, 0, 0, 0, 0, 0, 0, 0, 0, 0,
    0, 0, 0, 0, 0, 0, 0, 0, 0, 0, 1, 0, 0, 0, 1, 0, 0, 0, 0, 0, 0, 0, 84, 90, 105, 102, 50, 0, 0,
    0, 0, 0, 0, 0, 0, 0, 0, 0, 0, 0, 0, 0, 0, 0, 0, 0, 0, 0, 0, 0, 0, 0, 0, 0, 0, 0, 0, 9, 0, 0,
    0, 3, 0, 0, 0, 12, 255, 255, 255, 255, 159, 157, 234, 220, 0, 0, 0, 0, 7, 85, 172, 96, 0, 0,
    0, 0, 7, 205, 150, 208, 0, 0, 0, 0, 25, 44, 120, 96, 0, 0, 0, 0, 25, 207, 228, 80, 0, 0, 0, 0,
    39, 234, 238, 224, 0, 0, 0, 0, 40, 200, 92, 208, 0, 0, 0, 0, 68, 84, 82, 96, 0, 0, 0, 0, 69,
    31, 75, 80, 2, 1, 2, 1, 2, 1, 2, 1, 2, 255, 255, 171, 36, 0, 0, 255, 255, 185, 176, 1, 4, 255,
    255, 171, 160, 0, 8, 76, 77, 84, 0, 67, 68, 84, 0, 67, 83, 84, 0, 10, 67, 83, 84, 54, 10,
];

/// `America/Guayaquil`.
#[verifier::opaque]
pub const AMERICA_GUAYAQUIL: [u8; 179] = [
    84, 90, 105, 102, 50, 0, 0, 0, 0, 0, 0, 0, 0, 0, 0, 0, 0, 0, 0, 0, 0, 0, 0, 0, 0, 0, 0, 0, 0,
    0, 0, 0, 0, 0, 0, 0, 0, 0, 0, 1, 0, 0, 0, 1, 0, 0, 0, 0, 0, 0, 0, 84, 90, 105, 102, 50, 0, 0,
    0, 0, 0, 0, 0, 0, 0, 0, 0, 0, 0, 0, 0, 0, 0, 0, 0, 0, 0, 0, 0, 0, 0, 0, 0, 0, 0, 0, 4, 0, 0,
    0, 4, 0, 0, 0, 16, 255, 255, 255, 255, 105, 135, 38, 88, 255, 255, 255, 255, 182, 164, 66, 24,
    0, 0, 0, 0, 43, 22, 252, 208, 0, 0, 0, 0, 43, 113, 230, 64, 1, 3, 2, 3, 255, 255, 181, 40, 0,
    0, 255, 255, 182, 104, 0, 4, 255, 255, 199, 192, 1, 8, 255, 255, 185, 176, 0, 12, 76, 77, 84,
    0, 81, 77, 84, 0, 45, 48, 52, 0, 45, 48, 53, 0, 10, 60, 45, 48, 53, 62, 53, 10,
];

/// `America/Guyana`.
#[verifier::opaque]
pub const AMERICA_GUYANA: [u8; 181] = [
    84, 90, 105, 102, 50, 0, 0, 0, 0, 0, 0, 0, 0, 0, 0, 0, 0, 0, 0, 0, 0, 0, 0, 0, 0, 0, 0, 0, 0,
    0, 0, 0, 0, 0, 0, 0, 0, 0, 0, 1, 0, 0, 0, 1, 0, 0, 0, 0, 0, 0, 0, 84, 90, 105, 102, 50, 0, 0,
    0, 0, 0, 0, 0, 0, 0, 0, 0, 0, 0, 0, 0, 0, 0, 0, 0, 0, 0, 0, 0, 0, 0, 0, 0, 0, 0, 0, 4, 0, 0,
    0, 4, 0, 0, 0, 18, 255, 255, 255, 255, 146, 29, 15, 135, 255, 255, 255, 255, 152, 217, 123,
    64, 0, 0, 0, 0, 10, 127, 5, 188, 0, 0, 0, 0, 41, 213, 64, 192, 1, 2, 3, 1, 255, 255, 201, 121,
    0, 0, 255, 255, 199, 192, 0, 4, 255, 255, 203, 68, 0, 8, 255, 255, 213, 208, 0, 14, 76, 77,
    84, 0, 45, 48, 52, 0, 45, 48, 51, 52, 53, 0, 45, 48, 51, 0, 10, 60, 45, 48, 52, 62, 52, 10,
];

/// `America/Halifax`.
#[verifier::opaque]
pub const AMERICA_HALIFAX: [u8; 1672] = [
    84, 90, 105, 102, 50, 0, 0, 0, 0, 0, 0, 0, 0, 0, 0, 0, 0, 0, 0, 0, 0, 0, 0, 0, 0, 0, 0, 0, 0,
    0, 0, 0, 0, 0, 0, 0, 0, 0, 0, 1, 0, 0, 0, 1, 0, 0, 0, 0, 0, 0, 0, 84, 90, 105, 102, 50, 0, 0,
    0, 0, 0, 0, 0, 0, 0, 0, 0, 0, 0, 0, 0, 0, 0, 0, 0, 0, 0, 0, 0, 0, 0, 0, 0, 0, 0, 0, 167, 0, 0,
    0, 5, 0, 0, 0, 20, 255, 255, 255, 255, 128, 241, 171, 160, 255, 255, 255, 255, 154, 228, 222,
    192, 255, 255, 255, 255, 155, 214, 19, 48, 255, 255, 255, 255, 158, 184, 133, 96, 255, 255,
    255, 255, 159, 186, 221, 80, 255, 255, 255, 255, 162, 157, 23, 64, 255, 255, 255, 255, 163,
    48, 177, 48, 255, 255, 255, 255, 164, 122, 86, 64, 255, 255, 255, 255, 165, 27, 31, 48, 255,
    255, 255, 255, 166, 83, 160, 192, 255, 255, 255, 255, 166, 252, 82, 176, 255, 255, 255, 255,
    168, 60, 189, 64, 255, 255, 255, 255, 168, 220, 52, 176, 255, 255, 255, 255, 170, 28, 159, 64,
    255, 255, 255, 255, 170, 205, 58, 48, 255, 255, 255, 255, 171, 252, 129, 64, 255, 255, 255,
    255, 172, 191, 145, 48, 255, 255, 255, 255, 173, 238, 216, 64, 255, 255, 255, 255, 174, 140,
    254, 48, 255, 255, 255, 255, 175, 188, 69, 64, 255, 255, 255, 255, 176, 127, 85, 48, 255, 255,
    255, 255, 177, 174, 156, 64, 255, 255, 255, 255, 178, 75, 112, 176, 255, 255, 255, 255, 179,
    142, 126, 64, 255, 255, 255, 255, 180, 36, 187, 48, 255, 255, 255, 255, 181, 110, 96, 64, 255,
    255, 255, 255, 182, 21, 192, 176, 255, 255, 255, 255, 183, 78, 66, 64, 255, 255, 255, 255,
    184, 8, 23, 176, 255, 255, 255, 255, 185, 36, 233, 192, 255, 255, 255, 255, 185, 231, 249,
    176, 255, 255, 255, 255, 187, 4, 203, 192, 255, 255, 255, 255, 187, 209, 22, 48, 255, 255,
    255, 255, 189, 0, 93, 64, 255, 255, 255, 255, 189, 157, 49, 176, 255, 255, 255, 255, 190, 242,
    180, 64, 255, 255, 255, 255, 191, 144, 218, 48, 255, 255, 255, 255, 192, 211, 231, 192, 255,
    255, 255, 255, 193, 94, 71, 48, 255, 255, 255, 255, 194, 141, 142, 64, 255, 255, 255, 255,
    195, 80, 158, 48, 255, 255, 255, 255, 196, 109, 112, 64, 255, 255, 255, 255, 197, 48, 128, 48,
    255, 255, 255, 255, 198, 114, 60, 64, 255, 255, 255, 255, 199, 16, 98, 48, 255, 255, 255, 255,
    200, 54, 110, 192, 255, 255, 255, 255, 200, 249, 126, 176, 255, 255, 255, 255, 202, 22, 80,
    192, 255, 255, 255, 255, 202, 217, 96, 176, 255, 255, 255, 255, 203, 136, 226, 96, 255, 255,
    255, 255, 210, 35, 244, 112, 255, 255, 255, 255, 210, 96, 237, 208, 255, 255, 255, 255, 211,
    117, 214, 224, 255, 255, 255, 255, 212, 64, 207, 208, 255, 255, 255, 255, 213, 85, 184, 224,
    255, 255, 255, 255, 214, 32, 177, 208, 255, 255, 255, 255, 215, 53, 154, 224, 255, 255, 255,
    255, 216, 0, 147, 208, 255, 255, 255, 255, 217, 21, 124, 224, 255, 255, 255, 255, 217, 224,
    117, 208, 255, 255, 255, 255, 220, 222, 123, 96, 255, 255, 255, 255, 221, 169, 116, 80, 255,
    255, 255, 255, 222, 190, 93, 96, 255, 255, 255, 255, 223, 137, 86, 80, 255, 255, 255, 255,
    224, 158, 63, 96, 255, 255, 255, 255, 225, 105, 56, 80, 255, 255, 255, 255, 226, 126, 33, 96,
    255, 255, 255, 255, 227, 73, 26, 80, 255, 255, 255, 255, 230, 71, 31, 224, 255, 255, 255, 255,
    231, 18, 24, 208, 255, 255, 255, 255, 232, 39, 1, 224, 255, 255, 255, 255, 232, 241, 250, 208,
    255, 255, 255, 255, 234, 6, 227, 224, 255, 255, 255, 255, 234, 209, 220, 208, 255, 255, 255,
    255, 235, 230, 197, 224, 255, 255, 255, 255, 236, 177, 190, 208, 255, 255, 255, 255, 241, 143,
    166, 96, 255, 255, 255, 255, 242, 127, 137, 80, 255, 255, 255, 255, 243, 111, 136, 96, 255,
    255, 255, 255, 244, 95, 107, 80, 255, 255, 255, 255, 245, 79, 106, 96, 255, 255, 255, 255,
    246, 63, 77, 80, 255, 255, 255, 255, 247, 47, 76, 96, 255, 255, 255, 255, 248, 40, 105, 208,
    255, 255, 255, 255, 249, 15, 46, 96, 255, 255, 255, 255, 250, 8, 75, 208, 255, 255, 255, 255,
    250, 248, 74, 224, 255, 255, 255, 255, 251, 232, 45, 208, 255, 255, 255, 255, 252, 216, 44,
    224, 255, 255, 255, 255, 253, 200, 15, 208, 255, 255, 255, 255, 254, 184, 14, 224, 255, 255,
    255, 255, 255, 167, 241, 208, 0, 0, 0, 0, 0, 151, 240, 224, 0, 0, 0, 0, 1, 135, 211, 208, 0,
    0, 0, 0, 2, 119, 210, 224, 0, 0, 0, 0, 3, 112, 240, 80, 0, 0, 0, 0, 4, 96, 239, 96, 0, 0, 0,
    0, 5, 80, 210, 80, 0, 0, 0, 0, 6, 64, 209, 96, 0, 0, 0, 0, 7, 48, 180, 80, 0, 0, 0, 0, 8, 32,
    179, 96, 0, 0, 0, 0, 9, 16, 150, 80, 0, 0, 0, 0, 10, 0, 149, 96, 0, 0, 0, 0, 10, 240, 120, 80,
    0, 0, 0, 0, 11, 224, 119, 96, 0, 0, 0, 0, 12, 217, 148, 208, 0, 0, 0, 0, 13, 192, 89, 96, 0,
    0, 0, 0, 14, 185, 118, 208, 0, 0, 0, 0, 15, 169, 117, 224, 0, 0, 0, 0, 16, 153, 88, 208, 0, 0,
    0, 0, 17, 137, 87, 224, 0, 0, 0, 0, 18, 121, 58, 208, 0, 0, 0, 0, 19, 105, 57, 224, 0, 0, 0,
    0, 20, 89, 28, 208, 0, 0, 0, 0, 21, 73, 27, 224, 0, 0, 0, 0, 22, 56, 254, 208, 0, 0, 0, 0, 23,
    40, 253, 224, 0, 0, 0, 0, 24, 34, 27, 80, 0, 0, 0, 0, 25, 8, 223, 224, 0, 0, 0, 0, 26, 1, 253,
    80, 0, 0, 0, 0, 26, 241, 252, 96, 0, 0, 0, 0, 27, 225, 223, 80, 0, 0, 0, 0, 28, 209, 222, 96,
    0, 0, 0, 0, 29, 193, 193, 80, 0, 0, 0, 0, 30, 177, 192, 96, 0, 0, 0, 0, 31, 161, 163, 80, 0,
    0, 0, 0, 32, 117, 242, 224, 0, 0, 0, 0, 33, 129, 133, 80, 0, 0, 0, 0, 34, 85, 212, 224, 0, 0,
    0, 0, 35, 106, 161, 208, 0, 0, 0, 0, 36, 53, 182, 224, 0, 0, 0, 0, 37, 74, 131, 208, 0, 0, 0,
    0, 38, 21, 152, 224, 0, 0, 0, 0, 39, 42, 101, 208, 0, 0, 0, 0, 39, 254, 181, 96, 0, 0, 0, 0,
    41, 10, 71, 208, 0, 0, 0, 0, 41, 222, 151, 96, 0, 0, 0, 0, 42, 234, 41, 208, 0, 0, 0, 0, 43,
    190, 121, 96, 0, 0, 0, 0, 44, 211, 70, 80, 0, 0, 0, 0, 45, 158, 91, 96, 0, 0, 0, 0, 46, 179,
    40, 80, 0, 0, 0, 0, 47, 126, 61, 96, 0, 0, 0, 0, 48, 147, 10, 80, 0, 0, 0, 0, 49, 103, 89,
    224, 0, 0, 0, 0, 50, 114, 236, 80, 0, 0, 0, 0, 51, 71, 59, 224, 0, 0, 0, 0, 52, 82, 206, 80,
    0, 0, 0, 0, 53, 39, 29, 224, 0, 0, 0, 0, 54, 50, 176, 80, 0, 0, 0, 0, 55, 6, 255, 224, 0, 0,
    0, 0, 56, 27, 204, 208, 0, 0, 0, 0, 56, 230, 225, 224, 0, 0, 0, 0, 57, 251, 174, 208, 0, 0, 0,
    0, 58, 198, 195, 224, 0, 0, 0, 0, 59, 219, 144, 208, 0, 0, 0, 0, 60, 175, 224, 96, 0, 0, 0, 0,
    61, 187, 114, 208, 0, 0, 0, 0, 62, 143, 194, 96, 0, 0, 0, 0, 63, 155, 84, 208, 0, 0, 0, 0, 64,
    111, 164, 96, 0, 0, 0, 0, 65, 132, 113, 80, 0, 0, 0, 0, 66, 79, 134, 96, 0, 0, 0, 0, 67, 100,
    83, 80, 0, 0, 0, 0, 68, 47, 104, 96, 0, 0, 0, 0, 69, 68, 53, 80, 0, 0, 0, 0, 69, 243, 154,
    224, 2, 1, 2, 1, 2, 1, 2, 1, 2, 1, 2, 1, 2, 1, 2, 1, 2, 1, 2, 1, 2, 1, 2, 1, 2, 1, 2, 1, 2, 1,
    2, 1, 2, 1, 2, 1, 2, 1, 2, 1, 2, 1, 2, 1, 2, 1, 2, 1, 2, 3, 4, 2, 1, 2, 1, 2, 1, 2, 1, 2, 1,
    2, 1, 2, 1, 2, 1, 2, 1, 2, 1, 2, 1, 2, 1, 2, 1, 2, 1, 2, 1, 2, 1, 2, 1, 2, 1, 2, 1, 2, 1, 2,
    1, 2, 1, 2, 1, 2, 1, 2, 1, 2, 1, 2, 1, 2, 1, 2, 1, 2, 1, 2, 1, 2, 1, 2, 1, 2, 1, 2, 1, 2, 1,
    2, 1, 2, 1, 2, 1, 2, 1, 2, 1, 2, 1, 2, 1, 2, 1, 2, 1, 2, 1, 2, 1, 2, 1, 2, 1, 2, 1, 2, 1, 2,
    1, 2, 1, 2, 1, 2, 1, 2, 1, 2, 1, 2, 1, 255, 255, 196, 96, 0, 0, 255, 255, 213, 208, 1, 4, 255,
    255, 199, 192, 0, 8, 255, 255, 213, 208, 1, 12, 255, 255, 213, 208, 1, 16, 76, 77, 84, 0, 65,
    68, 84, 0, 65, 83, 84, 0, 65, 87, 84, 0, 65, 80, 84, 0, 10, 65, 83, 84, 52, 65, 68, 84, 44,
    77, 51, 46, 50, 46, 48, 44, 77, 49, 49, 46, 49, 46, 48, 10,
];

/// `America/Havana`.
#[verifier::opaque]
pub const AMERICA_HAVANA: [u8; 1117] = [
    84, 90, 105, 102, 50, 0, 0, 0, 0, 0, 0, 0, 0, 0, 0, 0, 0, 0, 0, 0, 0, 0, 0, 0, 0, 0, 0, 0, 0,
    0, 0, 0, 0, 0, 0, 0, 0, 0, 0, 1, 0, 0, 0, 1, 0, 0, 0, 0, 0, 0, 0, 84, 90, 105, 102, 50, 0, 0,
    0, 0, 0, 0, 0, 0, 0, 0, 0, 0, 0, 0, 0, 0, 0, 0, 0, 0, 0, 0, 0, 0, 0, 0, 0, 0, 0, 0, 106, 0, 0,
    0, 4, 0, 0, 0, 16, 255, 255, 255, 255, 105, 135, 40, 184, 255, 255, 255, 255, 172, 98, 194,
    128, 255, 255, 255, 255, 177, 211, 148, 80, 255, 255, 255, 255, 178, 116, 93, 64, 255, 255,
    255, 255, 200, 91, 102, 208, 255, 255, 255, 255, 200, 211, 81, 64, 255, 255, 255, 255, 202,
    59, 72, 208, 255, 255, 255, 255, 202, 188, 109, 192, 255, 255, 255, 255, 204, 36, 101, 80,
    255, 255, 255, 255, 204, 156, 79, 192, 255, 255, 255, 255, 209, 196, 11, 80, 255, 255, 255,
    255, 210, 59, 245, 192, 255, 255, 255, 255, 211, 163, 237, 80, 255, 255, 255, 255, 212, 27,
    215, 192, 255, 255, 255, 255, 247, 96, 5, 208, 255, 255, 255, 255, 247, 255, 125, 64, 255,
    255, 255, 255, 249, 61, 68, 208, 255, 255, 255, 255, 249, 227, 83, 192, 255, 255, 255, 255,
    250, 219, 59, 208, 255, 255, 255, 255, 251, 167, 134, 64, 255, 255, 255, 255, 252, 197, 169,
    208, 255, 255, 255, 255, 253, 135, 104, 64, 255, 255, 255, 255, 254, 184, 0, 208, 255, 255,
    255, 255, 255, 167, 227, 192, 0, 0, 0, 0, 0, 151, 226, 208, 0, 0, 0, 0, 1, 135, 197, 192, 0,
    0, 0, 0, 2, 119, 196, 208, 0, 0, 0, 0, 3, 112, 226, 64, 0, 0, 0, 0, 4, 96, 225, 80, 0, 0, 0,
    0, 5, 53, 20, 192, 0, 0, 0, 0, 6, 64, 195, 80, 0, 0, 0, 0, 7, 22, 72, 64, 0, 0, 0, 0, 8, 32,
    165, 80, 0, 0, 0, 0, 8, 247, 123, 192, 0, 0, 0, 0, 10, 0, 135, 80, 0, 0, 0, 0, 10, 240, 106,
    64, 0, 0, 0, 0, 11, 224, 105, 80, 0, 0, 0, 0, 12, 217, 134, 192, 0, 0, 0, 0, 13, 192, 75, 80,
    0, 0, 0, 0, 14, 185, 104, 192, 0, 0, 0, 0, 15, 178, 162, 80, 0, 0, 0, 0, 16, 125, 155, 64, 0,
    0, 0, 0, 17, 81, 234, 208, 0, 0, 0, 0, 18, 102, 183, 192, 0, 0, 0, 0, 19, 49, 204, 208, 0, 0,
    0, 0, 20, 70, 153, 192, 0, 0, 0, 0, 21, 91, 130, 208, 0, 0, 0, 0, 22, 38, 123, 192, 0, 0, 0,
    0, 23, 59, 100, 208, 0, 0, 0, 0, 24, 6, 93, 192, 0, 0, 0, 0, 25, 27, 70, 208, 0, 0, 0, 0, 25,
    230, 63, 192, 0, 0, 0, 0, 26, 251, 40, 208, 0, 0, 0, 0, 27, 207, 92, 64, 0, 0, 0, 0, 28, 219,
    10, 208, 0, 0, 0, 0, 29, 175, 62, 64, 0, 0, 0, 0, 30, 122, 83, 80, 0, 0, 0, 0, 31, 143, 32,
    64, 0, 0, 0, 0, 32, 90, 53, 80, 0, 0, 0, 0, 33, 111, 2, 64, 0, 0, 0, 0, 34, 67, 81, 208, 0, 0,
    0, 0, 35, 78, 228, 64, 0, 0, 0, 0, 36, 35, 51, 208, 0, 0, 0, 0, 37, 46, 198, 64, 0, 0, 0, 0,
    38, 21, 138, 208, 0, 0, 0, 0, 39, 23, 226, 192, 0, 0, 0, 0, 39, 254, 167, 80, 0, 0, 0, 0, 40,
    247, 210, 208, 0, 0, 0, 0, 41, 222, 137, 80, 0, 0, 0, 0, 42, 215, 180, 208, 0, 0, 0, 0, 43,
    190, 107, 80, 0, 0, 0, 0, 44, 183, 150, 208, 0, 0, 0, 0, 45, 158, 77, 80, 0, 0, 0, 0, 46, 151,
    120, 208, 0, 0, 0, 0, 47, 126, 47, 80, 0, 0, 0, 0, 48, 119, 90, 208, 0, 0, 0, 0, 49, 103, 75,
    208, 0, 0, 0, 0, 50, 87, 60, 208, 0, 0, 0, 0, 51, 71, 45, 208, 0, 0, 0, 0, 52, 64, 89, 80, 0,
    0, 0, 0, 53, 29, 213, 80, 0, 0, 0, 0, 54, 50, 176, 80, 0, 0, 0, 0, 54, 253, 183, 80, 0, 0, 0,
    0, 56, 27, 204, 208, 0, 0, 0, 0, 56, 230, 211, 208, 0, 0, 0, 0, 57, 251, 174, 208, 0, 0, 0, 0,
    58, 198, 181, 208, 0, 0, 0, 0, 59, 219, 144, 208, 0, 0, 0, 0, 60, 175, 210, 80, 0, 0, 0, 0,
    61, 187, 114, 208, 0, 0, 0, 0, 62, 143, 180, 80, 0, 0, 0, 0, 63, 155, 84, 208, 0, 0, 0, 0, 64,
    102, 91, 208, 0, 0, 0, 0, 69, 68, 53, 80, 0, 0, 0, 0, 69, 243, 140, 208, 0, 0, 0, 0, 71, 36,
    23, 80, 0, 0, 0, 0, 71, 220, 169, 80, 0, 0, 0, 0, 73, 3, 249, 80, 0, 0, 0, 0, 73, 179, 80,
    208, 0, 0, 0, 0, 74, 227, 219, 80, 0, 0, 0, 0, 75, 156, 109, 80, 0, 0, 0, 0, 76, 204, 247,
    208, 0, 0, 0, 0, 77, 133, 137, 208, 0, 0, 0, 0, 78, 191, 78, 208, 0, 0, 0, 0, 79, 119, 224,
    208, 0, 0, 0, 0, 80, 149, 246, 80, 1, 3, 2, 3, 2, 3, 2, 3, 2, 3, 2, 3, 2, 3, 2, 3, 2, 3, 2, 3,
    2, 3, 2, 3, 2, 3, 2, 3, 2, 3, 2, 3, 2, 3, 2, 3, 2, 3, 2, 3, 2, 3, 2, 3, 2, 3, 2, 3, 2, 3, 2,
    3, 2, 3, 2, 3, 2, 3, 2, 3, 2, 3, 2, 3, 2, 3, 2, 3, 2, 3, 2, 3, 2, 3, 2, 3, 2, 3, 2, 3, 2, 3,
    2, 3, 2, 3, 2, 3, 2, 3, 2, 3, 2, 3, 2, 3, 2, 3, 2, 3, 2, 3, 2, 3, 2, 3, 255, 255, 178, 200, 0,
    0, 255, 255, 178, 192, 0, 4, 255, 255, 199, 192, 1, 8, 255, 255, 185, 176, 0, 12, 76, 77, 84,
    0, 72, 77, 84, 0, 67, 68, 84, 0, 67, 83, 84, 0, 10, 67, 83, 84, 53, 67, 68, 84, 44, 77, 51,
    46, 50, 46, 48, 47, 48, 44, 77, 49, 49, 46, 49, 46, 48, 47, 49, 10,
];

/// `America/Hermosillo`.
#[verifier::opaque]
pub const AMERICA_HERMOSILLO: [u8; 258] = [
    84, 90, 105, 102, 50, 0, 0, 0, 0, 0, 0, 0, 0, 0, 0, 0, 0, 0, 0, 0, 0, 0, 0, 0, 0, 0, 0, 0, 0,
    0, 0, 0, 0, 0, 0, 0, 0, 0, 0, 1, 0, 0, 0, 1, 0, 0, 0, 0, 0, 0, 0, 84, 90, 105, 102, 50, 0, 0,
    0, 0, 0, 0, 0, 0, 0, 0, 0, 0, 0, 0, 0, 0, 0, 0, 0, 0, 0, 0, 0, 0, 0, 0, 0, 0, 0, 0, 13, 0, 0,
    0, 4, 0, 0, 0, 16, 255, 255, 255, 255, 165, 182, 232, 112, 255, 255, 255, 255, 175, 241, 43,
    112, 255, 255, 255, 255, 182, 102, 86, 96, 255, 255, 255, 255, 183, 65, 61, 112, 255, 255,
    255, 255, 184, 12, 54, 96, 255, 255, 255, 255, 184, 253, 134, 240, 255, 255, 255, 255, 203,
    234, 113, 96, 0, 0, 0, 0, 49, 103, 132, 16, 0, 0, 0, 0, 50, 115, 22, 128, 0, 0, 0, 0, 51, 71,
    102, 16, 0, 0, 0, 0, 52, 82, 248, 128, 0, 0, 0, 0, 53, 39, 72, 16, 0, 0, 0, 0, 54, 50, 218,
    128, 1, 2, 1, 3, 1, 2, 1, 3, 1, 3, 1, 3, 1, 255, 255, 151, 248, 0, 0, 255, 255, 157, 144, 0,
    4, 255, 255, 171, 160, 0, 8, 255, 255, 171, 160, 1, 12, 76, 77, 84, 0, 77, 83, 84, 0, 67, 83,
    84, 0, 77, 68, 84, 0, 10, 77, 83, 84, 55, 10,
];

/// `America/Indiana/Indianapolis`.
#[verifier::opaque]
pub const AMERICA_INDIANA_INDIANAPOLIS: [u8; 531] = [
    84, 90, 105, 102, 50, 0, 0, 0, 0, 0, 0, 0, 0, 0, 0, 0, 0, 0, 0, 0, 0, 0, 0, 0, 0, 0, 0, 0, 0,
    0, 0, 0, 0, 0, 0, 0, 0, 0, 0, 1, 0, 0, 0, 1, 0, 0, 0, 0, 0, 0, 0, 84, 90, 105, 102, 50, 0, 0,
    0, 0, 0, 0, 0, 0, 0, 0, 0, 0, 0, 0, 0, 0, 0, 0, 0, 0, 0, 0, 0, 0, 0, 0, 0, 0, 0, 0, 38, 0, 0,
    0, 7, 0, 0, 0, 28, 255, 255, 255, 255, 94, 3, 254, 160, 255, 255, 255, 255, 158, 166, 44, 128,
    255, 255, 255, 255, 159, 186, 249, 112, 255, 255, 255, 255, 160, 134, 14, 128, 255, 255, 255,
    255, 161, 154, 219, 112, 255, 255, 255, 255, 202, 87, 34, 128, 255, 255, 255, 255, 202, 216,
    71, 112, 255, 255, 255, 255, 203, 136, 254, 128, 255, 255, 255, 255, 210, 35, 244, 112, 255,
    255, 255, 255, 210, 97, 9, 240, 255, 255, 255, 255, 211, 117, 243, 0, 255, 255, 255, 255, 212,
    64, 235, 240, 255, 255, 255, 255, 213, 85, 213, 0, 255, 255, 255, 255, 214, 32, 205, 240, 255,
    255, 255, 255, 215, 53, 183, 0, 255, 255, 255, 255, 216, 0, 175, 240, 255, 255, 255, 255, 217,
    21, 153, 0, 255, 255, 255, 255, 217, 224, 145, 240, 255, 255, 255, 255, 218, 254, 181, 128,
    255, 255, 255, 255, 219, 192, 115, 240, 255, 255, 255, 255, 220, 222, 151, 128, 255, 255, 255,
    255, 221, 169, 144, 112, 255, 255, 255, 255, 222, 190, 121, 128, 255, 255, 255, 255, 223, 137,
    114, 112, 255, 255, 255, 255, 224, 158, 91, 128, 255, 255, 255, 255, 225, 105, 84, 112, 255,
    255, 255, 255, 226, 126, 61, 128, 255, 255, 255, 255, 227, 73, 54, 112, 255, 255, 255, 255,
    228, 94, 31, 128, 255, 255, 255, 255, 232, 242, 22, 240, 255, 255, 255, 255, 234, 7, 0, 0,
    255, 255, 255, 255, 254, 184, 28, 240, 255, 255, 255, 255, 255, 167, 255, 224, 0, 0, 0, 0, 0,
    151, 254, 240, 0, 0, 0, 0, 1, 135, 225, 224, 0, 0, 0, 0, 68, 47, 118, 112, 0, 0, 0, 0, 69, 68,
    67, 96, 0, 0, 0, 0, 69, 243, 168, 240, 2, 1, 2, 1, 2, 1, 2, 3, 4, 2, 1, 2, 1, 2, 1, 2, 1, 2,
    1, 2, 1, 2, 1, 2, 1, 2, 1, 2, 5, 2, 5, 6, 5, 6, 5, 6, 5, 6, 255, 255, 175, 58, 0, 0, 255, 255,
    185, 176, 1, 4, 255, 255, 171, 160, 0, 8, 255, 255, 185, 176, 1, 12, 255, 255, 185, 176, 1,
    16, 255, 255, 185, 176, 0, 20, 255, 255, 199, 192, 1, 24, 76, 77, 84, 0, 67, 68, 84, 0, 67,
    83, 84, 0, 67, 87, 84, 0, 67, 80, 84, 0, 69, 83, 84, 0, 69, 68, 84, 0, 10, 69, 83, 84, 53, 69,
    68, 84, 44, 77, 51, 46, 50, 46, 48, 44, 77, 49, 49, 46, 49, 46, 48, 10,
];

/// `America/Indiana/Knox`.
#[verifier::opaque]
pub const AMERICA_INDIANA_KNOX: [u8; 1016] = [
    84, 90, 105, 102, 50, 0, 0, 0, 0, 0, 0, 0, 0, 0, 0, 0, 0, 0, 0, 0, 0, 0, 0, 0, 0, 0, 0, 0, 0,
    0, 0, 0, 0, 0, 0, 0, 0, 0, 0, 1, 0, 0, 0, 1, 0, 0, 0, 0, 0, 0, 0, 84, 90, 105, 102, 50, 0, 0,
    0, 0, 0, 0, 0, 0, 0, 0, 0, 0, 0, 0, 0, 0, 0, 0, 0, 0, 0, 0, 0, 0, 0, 0, 0, 0, 0, 0, 93, 0, 0,
    0, 6, 0, 0, 0, 24, 255, 255, 255, 255, 94, 3, 254, 160, 255, 255, 255, 255, 158, 166, 44, 128,
    255, 255, 255, 255, 159, 186, 249, 112, 255, 255, 255, 255, 160, 134, 14, 128, 255, 255, 255,
    255, 161, 154, 219, 112, 255, 255, 255, 255, 203, 136, 254, 128, 255, 255, 255, 255, 210, 35,
    244, 112, 255, 255, 255, 255, 210, 97, 9, 240, 255, 255, 255, 255, 213, 85, 213, 0, 255, 255,
    255, 255, 214, 32, 205, 240, 255, 255, 255, 255, 215, 53, 183, 0, 255, 255, 255, 255, 216, 0,
    175, 240, 255, 255, 255, 255, 217, 21, 153, 0, 255, 255, 255, 255, 217, 224, 145, 240, 255,
    255, 255, 255, 218, 254, 181, 128, 255, 255, 255, 255, 219, 192, 115, 240, 255, 255, 255, 255,
    220, 222, 151, 128, 255, 255, 255, 255, 221, 169, 144, 112, 255, 255, 255, 255, 222, 190, 121,
    128, 255, 255, 255, 255, 223, 137, 114, 112, 255, 255, 255, 255, 224, 158, 91, 128, 255, 255,
    255, 255, 225, 105, 84, 112, 255, 255, 255, 255, 226, 126, 61, 128, 255, 255, 255, 255, 227,
    73, 54, 112, 255, 255, 255, 255, 228, 94, 31, 128, 255, 255, 255, 255, 229, 87, 60, 240, 255,
    255, 255, 255, 230, 71, 60, 0, 255, 255, 255, 255, 231, 55, 30, 240, 255, 255, 255, 255, 232,
    39, 30, 0, 255, 255, 255, 255, 232, 242, 22, 240, 255, 255, 255, 255, 234, 7, 0, 0, 255, 255,
    255, 255, 234, 209, 248, 240, 255, 255, 255, 255, 235, 230, 226, 0, 255, 255, 255, 255, 236,
    214, 196, 240, 255, 255, 255, 255, 237, 198, 196, 0, 255, 255, 255, 255, 238, 191, 225, 112,
    255, 255, 255, 255, 239, 175, 224, 128, 255, 255, 255, 255, 240, 159, 195, 112, 255, 255, 255,
    255, 241, 143, 194, 128, 255, 255, 255, 255, 244, 95, 135, 112, 255, 255, 255, 255, 250, 248,
    103, 0, 255, 255, 255, 255, 251, 232, 73, 240, 255, 255, 255, 255, 252, 216, 73, 0, 255, 255,
    255, 255, 253, 200, 43, 240, 255, 255, 255, 255, 254, 184, 43, 0, 255, 255, 255, 255, 255,
    168, 13, 240, 0, 0, 0, 0, 0, 152, 13, 0, 0, 0, 0, 0, 1, 135, 239, 240, 0, 0, 0, 0, 2, 119,
    239, 0, 0, 0, 0, 0, 3, 113, 12, 112, 0, 0, 0, 0, 4, 97, 11, 128, 0, 0, 0, 0, 5, 80, 238, 112,
    0, 0, 0, 0, 6, 64, 237, 128, 0, 0, 0, 0, 7, 48, 208, 112, 0, 0, 0, 0, 7, 141, 39, 128, 0, 0,
    0, 0, 9, 16, 178, 112, 0, 0, 0, 0, 9, 173, 163, 0, 0, 0, 0, 0, 10, 240, 148, 112, 0, 0, 0, 0,
    11, 224, 147, 128, 0, 0, 0, 0, 12, 217, 176, 240, 0, 0, 0, 0, 13, 192, 117, 128, 0, 0, 0, 0,
    14, 185, 146, 240, 0, 0, 0, 0, 15, 169, 146, 0, 0, 0, 0, 0, 16, 153, 116, 240, 0, 0, 0, 0, 17,
    137, 116, 0, 0, 0, 0, 0, 18, 121, 86, 240, 0, 0, 0, 0, 19, 105, 86, 0, 0, 0, 0, 0, 20, 89, 56,
    240, 0, 0, 0, 0, 21, 73, 56, 0, 0, 0, 0, 0, 22, 57, 26, 240, 0, 0, 0, 0, 23, 41, 26, 0, 0, 0,
    0, 0, 24, 34, 55, 112, 0, 0, 0, 0, 25, 8, 252, 0, 0, 0, 0, 0, 26, 2, 25, 112, 0, 0, 0, 0, 26,
    242, 24, 128, 0, 0, 0, 0, 27, 225, 251, 112, 0, 0, 0, 0, 28, 209, 250, 128, 0, 0, 0, 0, 29,
    193, 221, 112, 0, 0, 0, 0, 30, 177, 220, 128, 0, 0, 0, 0, 31, 161, 191, 112, 0, 0, 0, 0, 32,
    118, 15, 0, 0, 0, 0, 0, 33, 129, 161, 112, 0, 0, 0, 0, 34, 85, 241, 0, 0, 0, 0, 0, 35, 106,
    189, 240, 0, 0, 0, 0, 36, 53, 211, 0, 0, 0, 0, 0, 37, 74, 159, 240, 0, 0, 0, 0, 38, 21, 181,
    0, 0, 0, 0, 0, 39, 42, 129, 240, 0, 0, 0, 0, 39, 254, 209, 128, 0, 0, 0, 0, 41, 10, 99, 240,
    0, 0, 0, 0, 68, 47, 118, 112, 0, 0, 0, 0, 69, 68, 81, 112, 0, 0, 0, 0, 69, 243, 183, 0, 2, 1,
    2, 1, 2, 3, 4, 2, 1, 2, 1, 2, 1, 2, 1, 2, 1, 2, 1, 2, 1, 2, 1, 2, 1, 2, 1, 2, 1, 2, 1, 2, 1,
    2, 1, 2, 1, 2, 5, 2, 1, 2, 1, 2, 1, 2, 1, 2, 1, 2, 1, 2, 1, 2, 1, 2, 1, 2, 1, 2, 1, 2, 1, 2,
    1, 2, 1, 2, 1, 2, 1, 2, 1, 2, 1, 2, 1, 2, 1, 2, 1, 2, 1, 2, 1, 2, 1, 2, 1, 5, 1, 2, 1, 255,
    255, 174, 202, 0, 0, 255, 255, 185, 176, 1, 4, 255, 255, 171, 160, 0, 8, 255, 255, 185, 176,
    1, 12, 255, 255, 185, 176, 1, 16, 255, 255, 185, 176, 0, 20, 76, 77, 84, 0, 67, 68, 84, 0, 67,
    83, 84, 0, 67, 87, 84, 0, 67, 80, 84, 0, 69, 83, 84, 0, 10, 67, 83, 84, 54, 67, 68, 84, 44,
    77, 51, 46, 50, 46, 48, 44, 77, 49, 49, 46, 49, 46, 48, 10,
];

/// `America/Indiana/Marengo`.
#[verifier::opaque]
pub const AMERICA_INDIANA_MARENGO: [u8; 567] = [
    84, 90, 105, 102, 50, 0, 0, 0, 0, 0, 0, 0, 0, 0, 0, 0, 0, 0, 0, 0, 0, 0, 0, 0, 0, 0, 0, 0, 0,
    0, 0, 0, 0, 0, 0, 0, 0, 0, 0, 1, 0, 0, 0, 1, 0, 0, 0, 0, 0, 0, 0, 84, 90, 105, 102, 50, 0, 0,
    0, 0, 0, 0, 0, 0, 0, 0, 0, 0, 0, 0, 0, 0, 0, 0, 0, 0, 0, 0, 0, 0, 0, 0, 0, 0, 0, 0, 42, 0, 0,
    0, 7, 0, 0, 0, 28, 255, 255, 255, 255, 94, 3, 254, 160, 255, 255, 255, 255, 158, 166, 44, 128,
    255, 255, 255, 255, 159, 186, 249, 112, 255, 255, 255, 255, 160, 134, 14, 128, 255, 255, 255,
    255, 161, 154, 219, 112, 255, 255, 255, 255, 203, 136, 254, 128, 255, 255, 255, 255, 210, 35,
    244, 112, 255, 255, 255, 255, 210, 97, 9, 240, 255, 255, 255, 255, 220, 222, 151, 128, 255,
    255, 255, 255, 221, 169, 144, 112, 255, 255, 255, 255, 226, 126, 61, 128, 255, 255, 255, 255,
    227, 73, 54, 112, 255, 255, 255, 255, 228, 94, 31, 128, 255, 255, 255, 255, 229, 41, 24, 112,
    255, 255, 255, 255, 230, 71, 60, 0, 255, 255, 255, 255, 231, 18, 52, 240, 255, 255, 255, 255,
    232, 39, 30, 0, 255, 255, 255, 255, 232, 242, 22, 240, 255, 255, 255, 255, 234, 7, 0, 0, 255,
    255, 255, 255, 234, 209, 248, 240, 255, 255, 255, 255, 235, 230, 226, 0, 255, 255, 255, 255,
    236, 177, 218, 240, 255, 255, 255, 255, 237, 198, 196, 0, 255, 255, 255, 255, 238, 145, 188,
    240, 255, 255, 255, 255, 239, 175, 224, 128, 255, 255, 255, 255, 254, 184, 28, 240, 255, 255,
    255, 255, 255, 167, 255, 224, 0, 0, 0, 0, 0, 151, 254, 240, 0, 0, 0, 0, 1, 135, 225, 224, 0,
    0, 0, 0, 2, 119, 224, 240, 0, 0, 0, 0, 3, 112, 254, 96, 0, 0, 0, 0, 4, 96, 253, 112, 0, 0, 0,
    0, 5, 80, 224, 96, 0, 0, 0, 0, 6, 64, 223, 112, 0, 0, 0, 0, 7, 48, 194, 96, 0, 0, 0, 0, 7,
    141, 25, 112, 0, 0, 0, 0, 9, 16, 178, 112, 0, 0, 0, 0, 9, 173, 148, 240, 0, 0, 0, 0, 10, 240,
    134, 96, 0, 0, 0, 0, 68, 47, 118, 112, 0, 0, 0, 0, 69, 68, 67, 96, 0, 0, 0, 0, 69, 243, 168,
    240, 2, 1, 2, 1, 2, 3, 4, 2, 1, 2, 1, 2, 1, 2, 1, 2, 1, 2, 1, 2, 1, 2, 1, 2, 5, 6, 5, 6, 5, 6,
    5, 6, 5, 6, 5, 1, 5, 6, 5, 6, 5, 6, 255, 255, 175, 13, 0, 0, 255, 255, 185, 176, 1, 4, 255,
    255, 171, 160, 0, 8, 255, 255, 185, 176, 1, 12, 255, 255, 185, 176, 1, 16, 255, 255, 185, 176,
    0, 20, 255, 255, 199, 192, 1, 24, 76, 77, 84, 0, 67, 68, 84, 0, 67, 83, 84, 0, 67, 87, 84, 0,
    67, 80, 84, 0, 69, 83, 84, 0, 69, 68, 84, 0, 10, 69, 83, 84, 53, 69, 68, 84, 44, 77, 51, 46,
    50, 46, 48, 44, 77, 49, 49, 46, 49, 46, 48, 10,
];

/// `America/Indiana/Petersburg`.
#[verifier::opaque]
pub const AMERICA_INDIANA_PETERSBURG: [u8; 683] = [
    84, 90, 105, 102, 50, 0, 0, 0, 0, 0, 0, 0, 0, 0, 0, 0, 0, 0, 0, 0, 0, 0, 0, 0, 0, 0, 0, 0, 0,
    0, 0, 0, 0, 0, 0, 0, 0, 0, 0, 1, 0, 0, 0, 1, 0, 0, 0, 0, 0, 0, 0, 84, 90, 105, 102, 50, 0, 0,
    0, 0, 0, 0, 0, 0, 0, 0, 0, 0, 0, 0, 0, 0, 0, 0, 0, 0, 0, 0, 0, 0, 0, 0, 0, 0, 0, 0, 56, 0, 0,
    0, 6, 0, 0, 0, 24, 255, 255, 255, 255, 94, 3, 254, 160, 255, 255, 255, 255, 158, 166, 44, 128,
    255, 255, 255, 255, 159, 186, 249, 112, 255, 255, 255, 255, 160, 134, 14, 128, 255, 255, 255,
    255, 161, 154, 219, 112, 255, 255, 255, 255, 203, 136, 254, 128, 255, 255, 255, 255, 210, 35,
    244, 112, 255, 255, 255, 255, 210, 97, 9, 240, 255, 255, 255, 255, 228, 103, 61, 224, 255,
    255, 255, 255, 229, 41, 24, 112, 255, 255, 255, 255, 230, 71, 60, 0, 255, 255, 255, 255, 231,
    18, 52, 240, 255, 255, 255, 255, 232, 39, 30, 0, 255, 255, 255, 255, 232, 242, 22, 240, 255,
    255, 255, 255, 234, 7, 0, 0, 255, 255, 255, 255, 234, 209, 248, 240, 255, 255, 255, 255, 235,
    230, 226, 0, 255, 255, 255, 255, 236, 177, 218, 240, 255, 255, 255, 255, 237, 198, 196, 0,
    255, 255, 255, 255, 238, 145, 188, 240, 255, 255, 255, 255, 239, 175, 224, 128, 255, 255, 255,
    255, 240, 159, 195, 112, 255, 255, 255, 255, 241, 143, 194, 128, 255, 255, 255, 255, 242, 127,
    165, 112, 255, 255, 255, 255, 243, 111, 164, 128, 255, 255, 255, 255, 244, 95, 135, 112, 255,
    255, 255, 255, 245, 79, 134, 128, 255, 255, 255, 255, 246, 63, 105, 112, 255, 255, 255, 255,
    247, 47, 104, 128, 255, 255, 255, 255, 250, 8, 103, 240, 255, 255, 255, 255, 250, 248, 103, 0,
    255, 255, 255, 255, 251, 232, 73, 240, 255, 255, 255, 255, 252, 216, 73, 0, 255, 255, 255,
    255, 253, 200, 43, 240, 255, 255, 255, 255, 254, 184, 43, 0, 255, 255, 255, 255, 255, 168, 13,
    240, 0, 0, 0, 0, 0, 152, 13, 0, 0, 0, 0, 0, 1, 135, 239, 240, 0, 0, 0, 0, 2, 119, 239, 0, 0,
    0, 0, 0, 3, 113, 12, 112, 0, 0, 0, 0, 4, 97, 11, 128, 0, 0, 0, 0, 5, 80, 238, 112, 0, 0, 0, 0,
    6, 64, 237, 128, 0, 0, 0, 0, 7, 48, 208, 112, 0, 0, 0, 0, 7, 141, 39, 128, 0, 0, 0, 0, 9, 16,
    178, 112, 0, 0, 0, 0, 9, 173, 163, 0, 0, 0, 0, 0, 10, 240, 148, 112, 0, 0, 0, 0, 11, 224, 147,
    128, 0, 0, 0, 0, 12, 217, 176, 240, 0, 0, 0, 0, 13, 192, 117, 128, 0, 0, 0, 0, 14, 185, 146,
    240, 0, 0, 0, 0, 68, 47, 118, 112, 0, 0, 0, 0, 69, 68, 81, 112, 0, 0, 0, 0, 69, 243, 183, 0,
    0, 0, 0, 0, 71, 45, 109, 240, 2, 1, 2, 1, 2, 3, 4, 2, 1, 2, 1, 2, 1, 2, 1, 2, 1, 2, 1, 2, 1,
    2, 1, 2, 1, 2, 1, 2, 5, 2, 1, 2, 1, 2, 1, 2, 1, 2, 1, 2, 1, 2, 1, 2, 1, 2, 1, 2, 1, 2, 1, 5,
    1, 2, 1, 5, 255, 255, 174, 45, 0, 0, 255, 255, 185, 176, 1, 4, 255, 255, 171, 160, 0, 8, 255,
    255, 185, 176, 1, 12, 255, 255, 185, 176, 1, 16, 255, 255, 185, 176, 0, 20, 76, 77, 84, 0, 67,
    68, 84, 0, 67, 83, 84, 0, 67, 87, 84, 0, 67, 80, 84, 0, 69, 83, 84, 0, 10, 69, 83, 84, 53, 69,
    68, 84, 44, 77, 51, 46, 50, 46, 48, 44, 77, 49, 49, 46, 49, 46, 48, 10,
];

/// `America/Indiana/Tell_City`.
#[verifier::opaque]
pub const AMERICA_INDIANA_TELL_CITY: [u8; 522] = [
    84, 90, 105, 102, 50, 0, 0, 0, 0, 0, 0, 0, 0, 0, 0, 0, 0, 0, 0, 0, 0, 0, 0, 0, 0, 0, 0, 0, 0,
    0, 0, 0, 0, 0, 0, 0, 0, 0, 0, 1, 0, 0, 0, 1, 0, 0, 0, 0, 0, 0, 0, 84, 90, 105, 102, 50, 0, 0,
    0, 0, 0, 0, 0, 0, 0, 0, 0, 0, 0, 0, 0, 0, 0, 0, 0, 0, 0, 0, 0, 0, 0, 0, 0, 0, 0, 0, 37, 0, 0,
    0, 7, 0, 0, 0, 28, 255, 255, 255, 255, 94, 3, 254, 160, 255, 255, 255, 255, 158, 166, 44, 128,
    255, 255, 255, 255, 159, 186, 249, 112, 255, 255, 255, 255, 160, 134, 14, 128, 255, 255, 255,
    255, 161, 154, 219, 112, 255, 255, 255, 255, 203, 136, 254, 128, 255, 255, 255, 255, 210, 35,
    244, 112, 255, 255, 255, 255, 210, 97, 9, 240, 255, 255, 255, 255, 228, 103, 61, 224, 255,
    255, 255, 255, 229, 41, 24, 112, 255, 255, 255, 255, 230, 71, 60, 0, 255, 255, 255, 255, 231,
    18, 52, 240, 255, 255, 255, 255, 232, 39, 30, 0, 255, 255, 255, 255, 232, 242, 22, 240, 255,
    255, 255, 255, 234, 7, 0, 0, 255, 255, 255, 255, 234, 209, 248, 240, 255, 255, 255, 255, 235,
    230, 226, 0, 255, 255, 255, 255, 236, 177, 218, 240, 255, 255, 255, 255, 237, 198, 196, 0,
    255, 255, 255, 255, 238, 145, 188, 240, 255, 255, 255, 255, 239, 175, 224, 128, 255, 255, 255,
    255, 240, 159, 195, 112, 255, 255, 255, 255, 241, 143, 194, 128, 255, 255, 255, 255, 242, 127,
    165, 112, 255, 255, 255, 255, 243, 111, 164, 128, 255, 255, 255, 255, 244, 95, 135, 112, 255,
    255, 255, 255, 245, 79, 134, 128, 255, 255, 255, 255, 251, 232, 73, 240, 255, 255, 255, 255,
    252, 216, 73, 0, 255, 255, 255, 255, 253, 200, 43, 240, 255, 255, 255, 255, 254, 184, 43, 0,
    255, 255, 255, 255, 255, 167, 255, 224, 0, 0, 0, 0, 0, 151, 254, 240, 0, 0, 0, 0, 1, 135, 225,
    224, 0, 0, 0, 0, 68, 47, 118, 112, 0, 0, 0, 0, 69, 68, 81, 112, 0, 0, 0, 0, 69, 243, 183, 0,
    2, 1, 2, 1, 2, 3, 4, 2, 1, 2, 1, 2, 1, 2, 1, 2, 1, 2, 1, 2, 1, 2, 1, 2, 1, 2, 5, 2, 1, 2, 6,
    5, 6, 5, 1, 2, 1, 255, 255, 174, 169, 0, 0, 255, 255, 185, 176, 1, 4, 255, 255, 171, 160, 0,
    8, 255, 255, 185, 176, 1, 12, 255, 255, 185, 176, 1, 16, 255, 255, 185, 176, 0, 20, 255, 255,
    199, 192, 1, 24, 76, 77, 84, 0, 67, 68, 84, 0, 67, 83, 84, 0, 67, 87, 84, 0, 67, 80, 84, 0,
    69, 83, 84, 0, 69, 68, 84, 0, 10, 67, 83, 84, 54, 67, 68, 84, 44, 77, 51, 46, 50, 46, 48, 44,
    77, 49, 49, 46, 49, 46, 48, 10,
];

/// `America/Indiana/Vevay`.
#[verifier::opaque]
pub const AMERICA_INDIANA_VEVAY: [u8; 369] = [
    84, 90, 105, 102, 50, 0, 0, 0, 0, 0, 0, 0, 0, 0, 0, 0, 0, 0, 0, 0, 0, 0, 0, 0, 0, 0, 0, 0, 0,
    0, 0, 0, 0, 0, 0, 0, 0, 0, 0, 1, 0, 0, 0, 1, 0, 0, 0, 0, 0, 0, 0, 84, 90, 105, 102, 50, 0, 0,
    0, 0, 0, 0, 0, 0, 0, 0, 0, 0, 0, 0, 0, 0, 0, 0, 0, 0, 0, 0, 0, 0, 0, 0, 0, 0, 0, 0, 20, 0, 0,
    0, 7, 0, 0, 0, 28, 255, 255, 255, 255, 94, 3, 254, 160, 255, 255, 255, 255, 158, 166, 44, 128,
    255, 255, 255, 255, 159, 186, 249, 112, 255, 255, 255, 255, 160, 134, 14, 128, 255, 255, 255,
    255, 161, 154, 219, 112, 255, 255, 255, 255, 203, 136, 254, 128, 255, 255, 255, 255, 210, 35,
    244, 112, 255, 255, 255, 255, 210, 97, 9, 240, 255, 255, 255, 255, 226, 126, 61, 128, 255,
    255, 255, 255, 254, 184, 28, 240, 255, 255, 255, 255, 255, 167, 255, 224, 0, 0, 0, 0, 0, 151,
    254, 240, 0, 0, 0, 0, 1, 135, 225, 224, 0, 0, 0, 0, 2, 119, 224, 240, 0, 0, 0, 0, 3, 112, 254,
    96, 0, 0, 0, 0, 4, 96, 253, 112, 0, 0, 0, 0, 5, 80, 224, 96, 0, 0, 0, 0, 68, 47, 118, 112, 0,
    0, 0, 0, 69, 68, 67, 96, 0, 0, 0, 0, 69, 243, 168, 240, 2, 1, 2, 1, 2, 3, 4, 2, 5, 6, 5, 6, 5,
    6, 5, 6, 5, 6, 5, 6, 255, 255, 176, 64, 0, 0, 255, 255, 185, 176, 1, 4, 255, 255, 171, 160, 0,
    8, 255, 255, 185, 176, 1, 12, 255, 255, 185, 176, 1, 16, 255, 255, 185, 176, 0, 20, 255, 255,
    199, 192, 1, 24, 76, 77, 84, 0, 67, 68, 84, 0, 67, 83, 84, 0, 67, 87, 84, 0, 67, 80, 84, 0,
    69, 83, 84, 0, 69, 68, 84, 0, 10, 69, 83, 84, 53, 69, 68, 84, 44, 77, 51, 46, 50, 46, 48, 44,
    77, 49, 49, 46, 49, 46, 48, 10,
];

/// `America/Indiana/Vincennes`.
#[verifier::opaque]
pub const AMERICA_INDIANA_VINCENNES: [u8; 558] = [
    84, 90, 105, 102, 50, 0, 0, 0, 0, 0, 0, 0, 0, 0, 0, 0, 0, 0, 0, 0, 0, 0, 0, 0, 0, 0, 0, 0, 0,
    0, 0, 0, 0, 0, 0, 0, 0, 0, 0, 1, 0, 0, 0, 1, 0, 0, 0, 0, 0, 0, 0, 84, 90, 105, 102, 50, 0, 0,
    0, 0, 0, 0, 0, 0, 0, 0, 0, 0, 0, 0, 0, 0, 0, 0, 0, 0, 0, 0, 0, 0, 0, 0, 0, 0, 0, 0, 41, 0, 0,
    0, 7, 0, 0, 0, 28, 255, 255, 255, 255, 94, 3, 254, 160, 255, 255, 255, 255, 158, 166, 44, 128,
    255, 255, 255, 255, 159, 186, 249, 112, 255, 255, 255, 255, 160, 134, 14, 128, 255, 255, 255,
    255, 161, 154, 219, 112, 255, 255, 255, 255, 203, 136, 254, 128, 255, 255, 255, 255, 210, 35,
    244, 112, 255, 255, 255, 255, 210, 97, 9, 240, 255, 255, 255, 255, 211, 117, 243, 0, 255, 255,
    255, 255, 212, 64, 235, 240, 255, 255, 255, 255, 224, 158, 91, 128, 255, 255, 255, 255, 225,
    105, 84, 112, 255, 255, 255, 255, 226, 126, 61, 128, 255, 255, 255, 255, 227, 73, 54, 112,
    255, 255, 255, 255, 228, 103, 61, 224, 255, 255, 255, 255, 229, 41, 24, 112, 255, 255, 255,
    255, 230, 71, 60, 0, 255, 255, 255, 255, 231, 18, 52, 240, 255, 255, 255, 255, 232, 39, 30, 0,
    255, 255, 255, 255, 232, 242, 22, 240, 255, 255, 255, 255, 234, 7, 0, 0, 255, 255, 255, 255,
    234, 209, 248, 240, 255, 255, 255, 255, 235, 230, 226, 0, 255, 255, 255, 255, 236, 177, 218,
    240, 255, 255, 255, 255, 237, 198, 196, 0, 255, 255, 255, 255, 238, 191, 225, 112, 255, 255,
    255, 255, 239, 175, 224, 128, 255, 255, 255, 255, 240, 113, 158, 240, 255, 255, 255, 255, 241,
    143, 194, 128, 255, 255, 255, 255, 242, 127, 165, 112, 255, 255, 255, 255, 243, 111, 164, 128,
    255, 255, 255, 255, 244, 95, 135, 112, 255, 255, 255, 255, 245, 79, 134, 128, 255, 255, 255,
    255, 254, 184, 28, 240, 255, 255, 255, 255, 255, 167, 255, 224, 0, 0, 0, 0, 0, 151, 254, 240,
    0, 0, 0, 0, 1, 135, 225, 224, 0, 0, 0, 0, 68, 47, 118, 112, 0, 0, 0, 0, 69, 68, 81, 112, 0, 0,
    0, 0, 69, 243, 183, 0, 0, 0, 0, 0, 71, 45, 109, 240, 2, 1, 2, 1, 2, 3, 4, 2, 1, 2, 1, 2, 1, 2,
    1, 2, 1, 2, 1, 2, 1, 2, 1, 2, 1, 2, 1, 2, 1, 2, 1, 2, 5, 6, 5, 6, 5, 1, 2, 1, 5, 255, 255,
    173, 241, 0, 0, 255, 255, 185, 176, 1, 4, 255, 255, 171, 160, 0, 8, 255, 255, 185, 176, 1, 12,
    255, 255, 185, 176, 1, 16, 255, 255, 185, 176, 0, 20, 255, 255, 199, 192, 1, 24, 76, 77, 84,
    0, 67, 68, 84, 0, 67, 83, 84, 0, 67, 87, 84, 0, 67, 80, 84, 0, 69, 83, 84, 0, 69, 68, 84, 0,
    10, 69, 83, 84, 53, 69, 68, 84, 44, 77, 51, 46, 50, 46, 48, 44, 77, 49, 49, 46, 49, 46, 48,
    10,
];

/// `America/Indiana/Winamac`.
#[verifier::opaque]
pub const AMERICA_INDIANA_WINAMAC: [u8; 603] = [
    84, 90, 105, 102, 50, 0, 0, 0, 0, 0, 0, 0, 0, 0, 0, 0, 0, 0, 0, 0, 0, 0, 0, 0, 0, 0, 0, 0, 0,
    0, 0, 0, 0, 0, 0, 0, 0, 0, 0, 1, 0, 0, 0, 1, 0, 0, 0, 0, 0, 0, 0, 84, 90, 105, 102, 50, 0, 0,
    0, 0, 0, 0, 0, 0, 0, 0, 0, 0, 0, 0, 0, 0, 0, 0, 0, 0, 0, 0, 0, 0, 0, 0, 0, 0, 0, 0, 46, 0, 0,
    0, 7, 0, 0, 0, 28, 255, 255, 255, 255, 94, 3, 254, 160, 255, 255, 255, 255, 158, 166, 44, 128,
    255, 255, 255, 255, 159, 186, 249, 112, 255, 255, 255, 255, 160, 134, 14, 128, 255, 255, 255,
    255, 161, 154, 219, 112, 255, 255, 255, 255, 203, 136, 254, 128, 255, 255, 255, 255, 210, 35,
    244, 112, 255, 255, 255, 255, 210, 97, 9, 240, 255, 255, 255, 255, 211, 117, 243, 0, 255, 255,
    255, 255, 212, 64, 235, 240, 255, 255, 255, 255, 213, 85, 213, 0, 255, 255, 255, 255, 214, 32,
    205, 240, 255, 255, 255, 255, 215, 53, 183, 0, 255, 255, 255, 255, 216, 0, 175, 240, 255, 255,
    255, 255, 217, 21, 153, 0, 255, 255, 255, 255, 217, 224, 145, 240, 255, 255, 255, 255, 218,
    254, 181, 128, 255, 255, 255, 255, 219, 192, 115, 240, 255, 255, 255, 255, 220, 222, 151, 128,
    255, 255, 255, 255, 221, 169, 144, 112, 255, 255, 255, 255, 222, 190, 121, 128, 255, 255, 255,
    255, 223, 137, 114, 112, 255, 255, 255, 255, 224, 158, 91, 128, 255, 255, 255, 255, 225, 105,
    84, 112, 255, 255, 255, 255, 226, 126, 61, 128, 255, 255, 255, 255, 227, 73, 54, 112, 255,
    255, 255, 255, 228, 94, 31, 128, 255, 255, 255, 255, 229, 87, 60, 240, 255, 255, 255, 255,
    230, 71, 60, 0, 255, 255, 255, 255, 231, 55, 30, 240, 255, 255, 255, 255, 232, 39, 30, 0, 255,
    255, 255, 255, 232, 242, 22, 240, 255, 255, 255, 255, 234, 7, 0, 0, 255, 255, 255, 255, 234,
    209, 248, 240, 255, 255, 255, 255, 235, 230, 226, 0, 255, 255, 255, 255, 236, 177, 218, 240,
    255, 255, 255, 255, 237, 198, 196, 0, 255, 255, 255, 255, 238, 145, 188, 240, 255, 255, 255,
    255, 239, 175, 224, 128, 255, 255, 255, 255, 254, 184, 28, 240, 255, 255, 255, 255, 255, 167,
    255, 224, 0, 0, 0, 0, 0, 151, 254, 240, 0, 0, 0, 0, 1, 135, 225, 224, 0, 0, 0, 0, 68, 47, 118,
    112, 0, 0, 0, 0, 69, 68, 81, 112, 0, 0, 0, 0, 69, 243, 183, 0, 2, 1, 2, 1, 2, 3, 4, 2, 1, 2,
    1, 2, 1, 2, 1, 2, 1, 2, 1, 2, 1, 2, 1, 2, 1, 2, 1, 2, 1, 2, 1, 2, 1, 2, 1, 2, 1, 2, 5, 6, 5,
    6, 5, 1, 2, 6, 255, 255, 174, 207, 0, 0, 255, 255, 185, 176, 1, 4, 255, 255, 171, 160, 0, 8,
    255, 255, 185, 176, 1, 12, 255, 255, 185, 176, 1, 16, 255, 255, 185, 176, 0, 20, 255, 255,
    199, 192, 1, 24, 76, 77, 84, 0, 67, 68, 84, 0, 67, 83, 84, 0, 67, 87, 84, 0, 67, 80, 84, 0,
    69, 83, 84, 0, 69, 68, 84, 0, 10, 69, 83, 84, 53, 69, 68, 84, 44, 77, 51, 46, 50, 46, 48, 44,
    77, 49, 49, 46, 49, 46, 48, 10,
];

/// `America/Inuvik`.
#[verifier::opaque]
pub const AMERICA_INUVIK: [u8; 817] = [
    84, 90, 105, 102, 50, 0, 0, 0, 0, 0, 0, 0, 0, 0, 0, 0, 0, 0, 0, 0, 0, 0, 0, 0, 0, 0, 0, 0, 0,
    0, 0, 0, 0, 0, 0, 0, 0, 0, 0, 1, 0, 0, 0, 1, 0, 0, 0, 0, 0, 0, 0, 84, 90, 105, 102, 50, 0, 0,
    0, 0, 0, 0, 0, 0, 0, 0, 0, 0, 0, 0, 0, 0, 0, 0, 0, 0, 0, 0, 0, 0, 0, 0, 0, 0, 0, 0, 72, 0, 0,
    0, 5, 0, 0, 0, 20, 255, 255, 255, 255, 224, 6, 78, 128, 0, 0, 0, 0, 4, 97, 39, 160, 0, 0, 0,
    0, 5, 81, 10, 144, 0, 0, 0, 0, 6, 65, 9, 160, 0, 0, 0, 0, 7, 48, 236, 144, 0, 0, 0, 0, 8, 32,
    235, 160, 0, 0, 0, 0, 9, 16, 206, 144, 0, 0, 0, 0, 10, 0, 205, 160, 0, 0, 0, 0, 10, 240, 176,
    144, 0, 0, 0, 0, 11, 224, 175, 160, 0, 0, 0, 0, 12, 217, 205, 16, 0, 0, 0, 0, 13, 192, 145,
    160, 0, 0, 0, 0, 14, 185, 175, 16, 0, 0, 0, 0, 15, 169, 174, 32, 0, 0, 0, 0, 16, 153, 145, 16,
    0, 0, 0, 0, 17, 137, 144, 32, 0, 0, 0, 0, 18, 121, 101, 0, 0, 0, 0, 0, 19, 105, 100, 16, 0, 0,
    0, 0, 20, 89, 71, 0, 0, 0, 0, 0, 21, 73, 70, 16, 0, 0, 0, 0, 22, 57, 41, 0, 0, 0, 0, 0, 23,
    41, 40, 16, 0, 0, 0, 0, 24, 34, 69, 128, 0, 0, 0, 0, 25, 9, 10, 16, 0, 0, 0, 0, 26, 2, 39,
    128, 0, 0, 0, 0, 26, 242, 38, 144, 0, 0, 0, 0, 27, 226, 9, 128, 0, 0, 0, 0, 28, 210, 8, 144,
    0, 0, 0, 0, 29, 193, 235, 128, 0, 0, 0, 0, 30, 177, 234, 144, 0, 0, 0, 0, 31, 161, 205, 128,
    0, 0, 0, 0, 32, 118, 29, 16, 0, 0, 0, 0, 33, 129, 175, 128, 0, 0, 0, 0, 34, 85, 255, 16, 0, 0,
    0, 0, 35, 106, 204, 0, 0, 0, 0, 0, 36, 53, 225, 16, 0, 0, 0, 0, 37, 74, 174, 0, 0, 0, 0, 0,
    38, 21, 195, 16, 0, 0, 0, 0, 39, 42, 144, 0, 0, 0, 0, 0, 39, 254, 223, 144, 0, 0, 0, 0, 41,
    10, 114, 0, 0, 0, 0, 0, 41, 222, 193, 144, 0, 0, 0, 0, 42, 234, 84, 0, 0, 0, 0, 0, 43, 190,
    163, 144, 0, 0, 0, 0, 44, 211, 112, 128, 0, 0, 0, 0, 45, 158, 133, 144, 0, 0, 0, 0, 46, 179,
    82, 128, 0, 0, 0, 0, 47, 126, 103, 144, 0, 0, 0, 0, 48, 147, 52, 128, 0, 0, 0, 0, 49, 103,
    132, 16, 0, 0, 0, 0, 50, 115, 22, 128, 0, 0, 0, 0, 51, 71, 102, 16, 0, 0, 0, 0, 52, 82, 248,
    128, 0, 0, 0, 0, 53, 39, 72, 16, 0, 0, 0, 0, 54, 50, 218, 128, 0, 0, 0, 0, 55, 7, 42, 16, 0,
    0, 0, 0, 56, 27, 247, 0, 0, 0, 0, 0, 56, 231, 12, 16, 0, 0, 0, 0, 57, 251, 217, 0, 0, 0, 0, 0,
    58, 198, 238, 16, 0, 0, 0, 0, 59, 219, 187, 0, 0, 0, 0, 0, 60, 176, 10, 144, 0, 0, 0, 0, 61,
    187, 157, 0, 0, 0, 0, 0, 62, 143, 236, 144, 0, 0, 0, 0, 63, 155, 127, 0, 0, 0, 0, 0, 64, 111,
    206, 144, 0, 0, 0, 0, 65, 132, 155, 128, 0, 0, 0, 0, 66, 79, 176, 144, 0, 0, 0, 0, 67, 100,
    125, 128, 0, 0, 0, 0, 68, 47, 146, 144, 0, 0, 0, 0, 69, 68, 95, 128, 0, 0, 0, 0, 69, 243, 197,
    16, 2, 1, 2, 1, 2, 1, 2, 1, 2, 1, 2, 1, 2, 1, 2, 4, 3, 4, 3, 4, 3, 4, 3, 4, 3, 4, 3, 4, 3, 4,
    3, 4, 3, 4, 3, 4, 3, 4, 3, 4, 3, 4, 3, 4, 3, 4, 3, 4, 3, 4, 3, 4, 3, 4, 3, 4, 3, 4, 3, 4, 3,
    4, 3, 4, 3, 4, 3, 4, 3, 4, 3, 4, 0, 0, 0, 0, 0, 0, 255, 255, 157, 144, 1, 4, 255, 255, 143,
    128, 0, 8, 255, 255, 157, 144, 0, 12, 255, 255, 171, 160, 1, 16, 45, 48, 48, 0, 80, 68, 84, 0,
    80, 83, 84, 0, 77, 83, 84, 0, 77, 68, 84, 0, 10, 77, 83, 84, 55, 77, 68, 84, 44, 77, 51, 46,
    50, 46, 48, 44, 77, 49, 49, 46, 49, 46, 48, 10,
];

/// `America/Iqaluit`.
#[verifier::opaque]
pub const AMERICA_IQALUIT: [u8; 855] = [
    84, 90, 105, 102, 50, 0, 0, 0, 0, 0, 0, 0, 0, 0, 0, 0, 0, 0, 0, 0, 0, 0, 0, 0, 0, 0, 0, 0, 0,
    0, 0, 0, 0, 0, 0, 0, 0, 0, 0, 1, 0, 0, 0, 1, 0, 0, 0, 0, 0, 0, 0, 84, 90, 105, 102, 50, 0, 0,
    0, 0, 0, 0, 0, 0, 0, 0, 0, 0, 0, 0, 0, 0, 0, 0, 0, 0, 0, 0, 0, 0, 0, 0, 0, 0, 0, 0, 74, 0, 0,
    0, 7, 0, 0, 0, 28, 255, 255, 255, 255, 204, 108, 161, 128, 255, 255, 255, 255, 210, 35, 244,
    112, 255, 255, 255, 255, 210, 96, 251, 224, 0, 0, 0, 0, 4, 96, 253, 112, 0, 0, 0, 0, 5, 80,
    224, 96, 0, 0, 0, 0, 6, 64, 223, 112, 0, 0, 0, 0, 7, 48, 194, 96, 0, 0, 0, 0, 8, 32, 193, 112,
    0, 0, 0, 0, 9, 16, 164, 96, 0, 0, 0, 0, 10, 0, 163, 112, 0, 0, 0, 0, 10, 240, 134, 96, 0, 0,
    0, 0, 11, 224, 133, 112, 0, 0, 0, 0, 12, 217, 162, 224, 0, 0, 0, 0, 13, 192, 103, 112, 0, 0,
    0, 0, 14, 185, 132, 224, 0, 0, 0, 0, 15, 169, 131, 240, 0, 0, 0, 0, 16, 153, 102, 224, 0, 0,
    0, 0, 17, 137, 101, 240, 0, 0, 0, 0, 18, 121, 72, 224, 0, 0, 0, 0, 19, 105, 71, 240, 0, 0, 0,
    0, 20, 89, 42, 224, 0, 0, 0, 0, 21, 73, 41, 240, 0, 0, 0, 0, 22, 57, 12, 224, 0, 0, 0, 0, 23,
    41, 11, 240, 0, 0, 0, 0, 24, 34, 41, 96, 0, 0, 0, 0, 25, 8, 237, 240, 0, 0, 0, 0, 26, 2, 11,
    96, 0, 0, 0, 0, 26, 242, 10, 112, 0, 0, 0, 0, 27, 225, 237, 96, 0, 0, 0, 0, 28, 209, 236, 112,
    0, 0, 0, 0, 29, 193, 207, 96, 0, 0, 0, 0, 30, 177, 206, 112, 0, 0, 0, 0, 31, 161, 177, 96, 0,
    0, 0, 0, 32, 118, 0, 240, 0, 0, 0, 0, 33, 129, 147, 96, 0, 0, 0, 0, 34, 85, 226, 240, 0, 0, 0,
    0, 35, 106, 175, 224, 0, 0, 0, 0, 36, 53, 196, 240, 0, 0, 0, 0, 37, 74, 145, 224, 0, 0, 0, 0,
    38, 21, 166, 240, 0, 0, 0, 0, 39, 42, 115, 224, 0, 0, 0, 0, 39, 254, 195, 112, 0, 0, 0, 0, 41,
    10, 85, 224, 0, 0, 0, 0, 41, 222, 165, 112, 0, 0, 0, 0, 42, 234, 55, 224, 0, 0, 0, 0, 43, 190,
    135, 112, 0, 0, 0, 0, 44, 211, 84, 96, 0, 0, 0, 0, 45, 158, 105, 112, 0, 0, 0, 0, 46, 179, 54,
    96, 0, 0, 0, 0, 47, 126, 75, 112, 0, 0, 0, 0, 48, 147, 24, 96, 0, 0, 0, 0, 49, 103, 103, 240,
    0, 0, 0, 0, 50, 114, 250, 96, 0, 0, 0, 0, 51, 71, 73, 240, 0, 0, 0, 0, 52, 82, 220, 96, 0, 0,
    0, 0, 53, 39, 43, 240, 0, 0, 0, 0, 54, 50, 190, 96, 0, 0, 0, 0, 55, 7, 13, 240, 0, 0, 0, 0,
    56, 27, 218, 224, 0, 0, 0, 0, 56, 230, 254, 0, 0, 0, 0, 0, 57, 251, 202, 240, 0, 0, 0, 0, 58,
    198, 209, 240, 0, 0, 0, 0, 59, 219, 158, 224, 0, 0, 0, 0, 60, 175, 238, 112, 0, 0, 0, 0, 61,
    187, 128, 224, 0, 0, 0, 0, 62, 143, 208, 112, 0, 0, 0, 0, 63, 155, 98, 224, 0, 0, 0, 0, 64,
    111, 178, 112, 0, 0, 0, 0, 65, 132, 127, 96, 0, 0, 0, 0, 66, 79, 148, 112, 0, 0, 0, 0, 67,
    100, 97, 96, 0, 0, 0, 0, 68, 47, 118, 112, 0, 0, 0, 0, 69, 68, 67, 96, 0, 0, 0, 0, 69, 243,
    168, 240, 4, 1, 2, 3, 2, 3, 2, 3, 2, 3, 2, 3, 2, 3, 2, 3, 2, 3, 2, 3, 2, 3, 2, 3, 2, 3, 2, 3,
    2, 3, 2, 3, 2, 3, 2, 3, 2, 3, 2, 3, 2, 3, 2, 3, 2, 3, 2, 3, 2, 3, 2, 3, 2, 3, 2, 3, 2, 3, 5,
    6, 2, 3, 2, 3, 2, 3, 2, 3, 2, 3, 2, 3, 2, 3, 0, 0, 0, 0, 0, 0, 255, 255, 199, 192, 1, 4, 255,
    255, 185, 176, 0, 8, 255, 255, 199, 192, 1, 12, 255, 255, 199, 192, 1, 16, 255, 255, 171, 160,
    0, 20, 255, 255, 185, 176, 1, 24, 45, 48, 48, 0, 69, 80, 84, 0, 69, 83, 84, 0, 69, 68, 84, 0,
    69, 87, 84, 0, 67, 83, 84, 0, 67, 68, 84, 0, 10, 69, 83, 84, 53, 69, 68, 84, 44, 77, 51, 46,
    50, 46, 48, 44, 77, 49, 49, 46, 49, 46, 48, 10,
];

/// `America/Jamaica`.
#[verifier::opaque]
pub const AMERICA_JAMAICA: [u8; 339] = [
    84, 90, 105, 102, 50, 0, 0, 0, 0, 0, 0, 0, 0, 0, 0, 0, 0, 0, 0, 0, 0, 0, 0, 0, 0, 0, 0, 0, 0,
    0, 0, 0, 0, 0, 0, 0, 0, 0, 0, 1, 0, 0, 0, 1, 0, 0, 0, 0, 0, 0, 0, 84, 90, 105, 102, 50, 0, 0,
    0, 0, 0, 0, 0, 0, 0, 0, 0, 0, 0, 0, 0, 0, 0, 0, 0, 0, 0, 0, 0, 0, 0, 0, 0, 0, 0, 0, 22, 0, 0,
    0, 4, 0, 0, 0, 16, 255, 255, 255, 255, 105, 135, 35, 126, 255, 255, 255, 255, 147, 15, 180,
    254, 0, 0, 0, 0, 7, 141, 25, 112, 0, 0, 0, 0, 9, 16, 164, 96, 0, 0, 0, 0, 9, 173, 148, 240, 0,
    0, 0, 0, 10, 240, 134, 96, 0, 0, 0, 0, 11, 224, 133, 112, 0, 0, 0, 0, 12, 217, 162, 224, 0, 0,
    0, 0, 13, 192, 103, 112, 0, 0, 0, 0, 14, 185, 132, 224, 0, 0, 0, 0, 15, 169, 131, 240, 0, 0,
    0, 0, 16, 153, 102, 224, 0, 0, 0, 0, 17, 137, 101, 240, 0, 0, 0, 0, 18, 121, 72, 224, 0, 0, 0,
    0, 19, 105, 71, 240, 0, 0, 0, 0, 20, 89, 42, 224, 0, 0, 0, 0, 21, 73, 41, 240, 0, 0, 0, 0, 22,
    57, 12, 224, 0, 0, 0, 0, 23, 41, 11, 240, 0, 0, 0, 0, 24, 34, 41, 96, 0, 0, 0, 0, 25, 8, 237,
    240, 0, 0, 0, 0, 26, 2, 11, 96, 1, 2, 3, 2, 3, 2, 3, 2, 3, 2, 3, 2, 3, 2, 3, 2, 3, 2, 3, 2, 3,
    2, 255, 255, 184, 2, 0, 0, 255, 255, 184, 2, 0, 4, 255, 255, 185, 176, 0, 8, 255, 255, 199,
    192, 1, 12, 76, 77, 84, 0, 75, 77, 84, 0, 69, 83, 84, 0, 69, 68, 84, 0, 10, 69, 83, 84, 53,
    10,
];

/// `America/Juneau`.
#[verifier::opaque]
pub const AMERICA_JUNEAU: [u8; 966] = [
    84, 90, 105, 102, 50, 0, 0, 0, 0, 0, 0, 0, 0, 0, 0, 0, 0, 0, 0, 0, 0, 0, 0, 0, 0, 0, 0, 0, 0,
    0, 0, 0, 0, 0, 0, 0, 0, 0, 0, 1, 0, 0, 0, 1, 0, 0, 0, 0, 0, 0, 0, 84, 90, 105, 102, 50, 0, 0,
    0, 0, 0, 0, 0, 0, 0, 0, 0, 0, 0, 0, 0, 0, 0, 0, 0, 0, 0, 0, 0, 0, 0, 0, 0, 0, 0, 0, 83, 0, 0,
    0, 10, 0, 0, 0, 38, 255, 255, 255, 255, 63, 194, 253, 209, 255, 255, 255, 255, 125, 135, 50,
    197, 255, 255, 255, 255, 203, 137, 26, 160, 255, 255, 255, 255, 210, 35, 244, 112, 255, 255,
    255, 255, 210, 97, 38, 16, 255, 255, 255, 255, 254, 184, 71, 32, 255, 255, 255, 255, 255, 168,
    42, 16, 0, 0, 0, 0, 0, 152, 41, 32, 0, 0, 0, 0, 1, 136, 12, 16, 0, 0, 0, 0, 2, 120, 11, 32, 0,
    0, 0, 0, 3, 113, 40, 144, 0, 0, 0, 0, 4, 97, 39, 160, 0, 0, 0, 0, 5, 81, 10, 144, 0, 0, 0, 0,
    6, 65, 9, 160, 0, 0, 0, 0, 7, 48, 236, 144, 0, 0, 0, 0, 7, 141, 67, 160, 0, 0, 0, 0, 9, 16,
    206, 144, 0, 0, 0, 0, 9, 173, 191, 32, 0, 0, 0, 0, 10, 240, 176, 144, 0, 0, 0, 0, 11, 224,
    175, 160, 0, 0, 0, 0, 12, 217, 205, 16, 0, 0, 0, 0, 13, 192, 145, 160, 0, 0, 0, 0, 14, 185,
    175, 16, 0, 0, 0, 0, 15, 169, 174, 32, 0, 0, 0, 0, 16, 153, 145, 16, 0, 0, 0, 0, 17, 137, 144,
    32, 0, 0, 0, 0, 18, 121, 115, 16, 0, 0, 0, 0, 19, 105, 114, 32, 0, 0, 0, 0, 20, 89, 99, 32, 0,
    0, 0, 0, 21, 73, 84, 32, 0, 0, 0, 0, 22, 57, 55, 16, 0, 0, 0, 0, 23, 41, 54, 32, 0, 0, 0, 0,
    24, 34, 83, 144, 0, 0, 0, 0, 25, 9, 24, 32, 0, 0, 0, 0, 26, 2, 53, 144, 0, 0, 0, 0, 26, 43,
    20, 16, 0, 0, 0, 0, 26, 242, 66, 176, 0, 0, 0, 0, 27, 226, 37, 160, 0, 0, 0, 0, 28, 210, 36,
    176, 0, 0, 0, 0, 29, 194, 7, 160, 0, 0, 0, 0, 30, 178, 6, 176, 0, 0, 0, 0, 31, 161, 233, 160,
    0, 0, 0, 0, 32, 118, 57, 48, 0, 0, 0, 0, 33, 129, 203, 160, 0, 0, 0, 0, 34, 86, 27, 48, 0, 0,
    0, 0, 35, 106, 232, 32, 0, 0, 0, 0, 36, 53, 253, 48, 0, 0, 0, 0, 37, 74, 202, 32, 0, 0, 0, 0,
    38, 21, 223, 48, 0, 0, 0, 0, 39, 42, 172, 32, 0, 0, 0, 0, 39, 254, 251, 176, 0, 0, 0, 0, 41,
    10, 142, 32, 0, 0, 0, 0, 41, 222, 221, 176, 0, 0, 0, 0, 42, 234, 112, 32, 0, 0, 0, 0, 43, 190,
    191, 176, 0, 0, 0, 0, 44, 211, 140, 160, 0, 0, 0, 0, 45, 158, 161, 176, 0, 0, 0, 0, 46, 179,
    110, 160, 0, 0, 0, 0, 47, 126, 131, 176, 0, 0, 0, 0, 48, 147, 80, 160, 0, 0, 0, 0, 49, 103,
    160, 48, 0, 0, 0, 0, 50, 115, 50, 160, 0, 0, 0, 0, 51, 71, 130, 48, 0, 0, 0, 0, 52, 83, 20,
    160, 0, 0, 0, 0, 53, 39, 100, 48, 0, 0, 0, 0, 54, 50, 246, 160, 0, 0, 0, 0, 55, 7, 70, 48, 0,
    0, 0, 0, 56, 28, 19, 32, 0, 0, 0, 0, 56, 231, 40, 48, 0, 0, 0, 0, 57, 251, 245, 32, 0, 0, 0,
    0, 58, 199, 10, 48, 0, 0, 0, 0, 59, 219, 215, 32, 0, 0, 0, 0, 60, 176, 38, 176, 0, 0, 0, 0,
    61, 187, 185, 32, 0, 0, 0, 0, 62, 144, 8, 176, 0, 0, 0, 0, 63, 155, 155, 32, 0, 0, 0, 0, 64,
    111, 234, 176, 0, 0, 0, 0, 65, 132, 183, 160, 0, 0, 0, 0, 66, 79, 204, 176, 0, 0, 0, 0, 67,
    100, 153, 160, 0, 0, 0, 0, 68, 47, 174, 176, 0, 0, 0, 0, 69, 68, 123, 160, 0, 0, 0, 0, 69,
    243, 225, 48, 1, 2, 3, 4, 2, 5, 2, 5, 2, 5, 2, 5, 2, 5, 2, 5, 2, 5, 2, 5, 2, 5, 2, 5, 2, 5, 2,
    6, 2, 5, 2, 5, 2, 5, 7, 9, 8, 9, 8, 9, 8, 9, 8, 9, 8, 9, 8, 9, 8, 9, 8, 9, 8, 9, 8, 9, 8, 9,
    8, 9, 8, 9, 8, 9, 8, 9, 8, 9, 8, 9, 8, 9, 8, 9, 8, 9, 8, 9, 8, 9, 8, 9, 8, 0, 0, 211, 123, 0,
    0, 255, 255, 129, 251, 0, 0, 255, 255, 143, 128, 0, 4, 255, 255, 157, 144, 1, 8, 255, 255,
    157, 144, 1, 12, 255, 255, 157, 144, 1, 16, 255, 255, 143, 128, 1, 20, 255, 255, 129, 112, 0,
    24, 255, 255, 143, 128, 1, 28, 255, 255, 129, 112, 0, 33, 76, 77, 84, 0, 80, 83, 84, 0, 80,
    87, 84, 0, 80, 80, 84, 0, 80, 68, 84, 0, 89, 68, 84, 0, 89, 83, 84, 0, 65, 75, 68, 84, 0, 65,
    75, 83, 84, 0, 10, 65, 75, 83, 84, 57, 65, 75, 68, 84, 44, 77, 51, 46, 50, 46, 48, 44, 77, 49,
    49, 46, 49, 46, 48, 10,
];

/// `America/Kentucky/Louisville`.
#[verifier::opaque]
pub const AMERICA_KENTUCKY_LOUISVILLE: [u8; 1242] = [
    84, 90, 105, 102, 50, 0, 0, 0, 0, 0, 0, 0, 0, 0, 0, 0, 0, 0, 0, 0, 0, 0, 0, 0, 0, 0, 0, 0, 0,
    0, 0, 0, 0, 0, 0, 0, 0, 0, 0, 1, 0, 0, 0, 1, 0, 0, 0, 0, 0, 0, 0, 84, 90, 105, 102, 50, 0, 0,
    0, 0, 0, 0, 0, 0, 0, 0, 0, 0, 0, 0, 0, 0, 0, 0, 0, 0, 0, 0, 0, 0, 0, 0, 0, 0, 0, 0, 117, 0, 0,
    0, 7, 0, 0, 0, 28, 255, 255, 255, 255, 94, 3, 254, 160, 255, 255, 255, 255, 158, 166, 44, 128,
    255, 255, 255, 255, 159, 186, 249, 112, 255, 255, 255, 255, 160, 134, 14, 128, 255, 255, 255,
    255, 161, 154, 219, 112, 255, 255, 255, 255, 164, 115, 247, 0, 255, 255, 255, 255, 165, 22,
    17, 112, 255, 255, 255, 255, 202, 13, 78, 128, 255, 255, 255, 255, 202, 216, 71, 112, 255,
    255, 255, 255, 203, 136, 254, 128, 255, 255, 255, 255, 210, 35, 244, 112, 255, 255, 255, 255,
    210, 97, 9, 240, 255, 255, 255, 255, 211, 117, 215, 28, 255, 255, 255, 255, 211, 164, 9, 112,
    255, 255, 255, 255, 218, 254, 181, 128, 255, 255, 255, 255, 219, 192, 115, 240, 255, 255, 255,
    255, 220, 222, 151, 128, 255, 255, 255, 255, 221, 169, 144, 112, 255, 255, 255, 255, 222, 190,
    121, 128, 255, 255, 255, 255, 223, 137, 114, 112, 255, 255, 255, 255, 224, 158, 91, 128, 255,
    255, 255, 255, 225, 105, 84, 112, 255, 255, 255, 255, 226, 126, 61, 128, 255, 255, 255, 255,
    227, 73, 54, 112, 255, 255, 255, 255, 228, 94, 31, 128, 255, 255, 255, 255, 229, 41, 24, 112,
    255, 255, 255, 255, 230, 71, 60, 0, 255, 255, 255, 255, 231, 55, 30, 240, 255, 255, 255, 255,
    232, 39, 30, 0, 255, 255, 255, 255, 233, 23, 0, 240, 255, 255, 255, 255, 234, 7, 0, 0, 255,
    255, 255, 255, 234, 246, 226, 240, 255, 255, 255, 255, 235, 230, 226, 0, 255, 255, 255, 255,
    236, 214, 196, 240, 255, 255, 255, 255, 237, 198, 196, 0, 255, 255, 255, 255, 238, 191, 225,
    112, 255, 255, 255, 255, 239, 175, 224, 128, 255, 255, 255, 255, 240, 30, 144, 112, 255, 255,
    255, 255, 252, 216, 58, 240, 255, 255, 255, 255, 253, 200, 29, 224, 255, 255, 255, 255, 254,
    184, 28, 240, 255, 255, 255, 255, 255, 167, 255, 224, 0, 0, 0, 0, 0, 151, 254, 240, 0, 0, 0,
    0, 1, 135, 225, 224, 0, 0, 0, 0, 2, 119, 224, 240, 0, 0, 0, 0, 3, 112, 254, 96, 0, 0, 0, 0, 4,
    96, 253, 112, 0, 0, 0, 0, 5, 80, 224, 96, 0, 0, 0, 0, 6, 64, 223, 112, 0, 0, 0, 0, 7, 48, 194,
    96, 0, 0, 0, 0, 7, 141, 25, 112, 0, 0, 0, 0, 9, 16, 178, 112, 0, 0, 0, 0, 9, 173, 148, 240, 0,
    0, 0, 0, 10, 240, 134, 96, 0, 0, 0, 0, 11, 224, 133, 112, 0, 0, 0, 0, 12, 217, 162, 224, 0, 0,
    0, 0, 13, 192, 103, 112, 0, 0, 0, 0, 14, 185, 132, 224, 0, 0, 0, 0, 15, 169, 131, 240, 0, 0,
    0, 0, 16, 153, 102, 224, 0, 0, 0, 0, 17, 137, 101, 240, 0, 0, 0, 0, 18, 121, 72, 224, 0, 0, 0,
    0, 19, 105, 71, 240, 0, 0, 0, 0, 20, 89, 42, 224, 0, 0, 0, 0, 21, 73, 41, 240, 0, 0, 0, 0, 22,
    57, 12, 224, 0, 0, 0, 0, 23, 41, 11, 240, 0, 0, 0, 0, 24, 34, 41, 96, 0, 0, 0, 0, 25, 8, 237,
    240, 0, 0, 0, 0, 26, 2, 11, 96, 0, 0, 0, 0, 26, 242, 10, 112, 0, 0, 0, 0, 27, 225, 237, 96, 0,
    0, 0, 0, 28, 209, 236, 112, 0, 0, 0, 0, 29, 193, 207, 96, 0, 0, 0, 0, 30, 177, 206, 112, 0, 0,
    0, 0, 31, 161, 177, 96, 0, 0, 0, 0, 32, 118, 0, 240, 0, 0, 0, 0, 33, 129, 147, 96, 0, 0, 0, 0,
    34, 85, 226, 240, 0, 0, 0, 0, 35, 106, 175, 224, 0, 0, 0, 0, 36, 53, 196, 240, 0, 0, 0, 0, 37,
    74, 145, 224, 0, 0, 0, 0, 38, 21, 166, 240, 0, 0, 0, 0, 39, 42, 115, 224, 0, 0, 0, 0, 39, 254,
    195, 112, 0, 0, 0, 0, 41, 10, 85, 224, 0, 0, 0, 0, 41, 222, 165, 112, 0, 0, 0, 0, 42, 234, 55,
    224, 0, 0, 0, 0, 43, 190, 135, 112, 0, 0, 0, 0, 44, 211, 84, 96, 0, 0, 0, 0, 45, 158, 105,
    112, 0, 0, 0, 0, 46, 179, 54, 96, 0, 0, 0, 0, 47, 126, 75, 112, 0, 0, 0, 0, 48, 147, 24, 96,
    0, 0, 0, 0, 49, 103, 103, 240, 0, 0, 0, 0, 50, 114, 250, 96, 0, 0, 0, 0, 51, 71, 73, 240, 0,
    0, 0, 0, 52, 82, 220, 96, 0, 0, 0, 0, 53, 39, 43, 240, 0, 0, 0, 0, 54, 50, 190, 96, 0, 0, 0,
    0, 55, 7, 13, 240, 0, 0, 0, 0, 56, 27, 218, 224, 0, 0, 0, 0, 56, 230, 239, 240, 0, 0, 0, 0,
    57, 251, 188, 224, 0, 0, 0, 0, 58, 198, 209, 240, 0, 0, 0, 0, 59, 219, 158, 224, 0, 0, 0, 0,
    60, 175, 238, 112, 0, 0, 0, 0, 61, 187, 128, 224, 0, 0, 0, 0, 62, 143, 208, 112, 0, 0, 0, 0,
    63, 155, 98, 224, 0, 0, 0, 0, 64, 111, 178, 112, 0, 0, 0, 0, 65, 132, 127, 96, 0, 0, 0, 0, 66,
    79, 148, 112, 0, 0, 0, 0, 67, 100, 97, 96, 0, 0, 0, 0, 68, 47, 118, 112, 0, 0, 0, 0, 69, 68,
    67, 96, 0, 0, 0, 0, 69, 243, 168, 240, 2, 1, 2, 1, 2, 1, 2, 1, 2, 3, 4, 2, 1, 2, 1, 2, 1, 2,
    1, 2, 1, 2, 1, 2, 1, 2, 1, 2, 1, 2, 1, 2, 1, 2, 1, 2, 1, 5, 6, 5, 6, 5, 6, 5, 6, 5, 6, 5, 6,
    5, 1, 5, 6, 5, 6, 5, 6, 5, 6, 5, 6, 5, 6, 5, 6, 5, 6, 5, 6, 5, 6, 5, 6, 5, 6, 5, 6, 5, 6, 5,
    6, 5, 6, 5, 6, 5, 6, 5, 6, 5, 6, 5, 6, 5, 6, 5, 6, 5, 6, 5, 6, 5, 6, 5, 6, 5, 6, 5, 6, 5, 6,
    5, 6, 5, 6, 5, 6, 255, 255, 175, 154, 0, 0, 255, 255, 185, 176, 1, 4, 255, 255, 171, 160, 0,
    8, 255, 255, 185, 176, 1, 12, 255, 255, 185, 176, 1, 16, 255, 255, 185, 176, 0, 20, 255, 255,
    199, 192, 1, 24, 76, 77, 84, 0, 67, 68, 84, 0, 67, 83, 84, 0, 67, 87, 84, 0, 67, 80, 84, 0,
    69, 83, 84, 0, 69, 68, 84, 0, 10, 69, 83, 84, 53, 69, 68, 84, 44, 77, 51, 46, 50, 46, 48, 44,
    77, 49, 49, 46, 49, 46, 48, 10,
];

/// `America/Kentucky/Monticello`.
#[verifier::opaque]
pub const AMERICA_KENTUCKY_MONTICELLO: [u8; 972] = [
    84, 90, 105, 102, 50, 0, 0, 0, 0, 0, 0, 0, 0, 0, 0, 0, 0, 0, 0, 0, 0, 0, 0, 0, 0, 0, 0, 0, 0,
    0, 0, 0, 0, 0, 0, 0, 0, 0, 0, 1, 0, 0, 0, 1, 0, 0, 0, 0, 0, 0, 0, 84, 90, 105, 102, 50, 0, 0,
    0, 0, 0, 0, 0, 0, 0, 0, 0, 0, 0, 0, 0, 0, 0, 0, 0, 0, 0, 0, 0, 0, 0, 0, 0, 0, 0, 0, 87, 0, 0,
    0, 7, 0, 0, 0, 28, 255, 255, 255, 255, 94, 3, 254, 160, 255, 255, 255, 255, 158, 166, 44, 128,
    255, 255, 255, 255, 159, 186, 249, 112, 255, 255, 255, 255, 160, 134, 14, 128, 255, 255, 255,
    255, 161, 154, 219, 112, 255, 255, 255, 255, 203, 136, 254, 128, 255, 255, 255, 255, 210, 35,
    244, 112, 255, 255, 255, 255, 210, 97, 9, 240, 255, 255, 255, 255, 252, 216, 73, 0, 255, 255,
    255, 255, 253, 200, 43, 240, 255, 255, 255, 255, 254, 184, 43, 0, 255, 255, 255, 255, 255,
    168, 13, 240, 0, 0, 0, 0, 0, 152, 13, 0, 0, 0, 0, 0, 1, 135, 239, 240, 0, 0, 0, 0, 2, 119,
    239, 0, 0, 0, 0, 0, 3, 113, 12, 112, 0, 0, 0, 0, 4, 97, 11, 128, 0, 0, 0, 0, 5, 80, 238, 112,
    0, 0, 0, 0, 6, 64, 237, 128, 0, 0, 0, 0, 7, 48, 208, 112, 0, 0, 0, 0, 7, 141, 39, 128, 0, 0,
    0, 0, 9, 16, 178, 112, 0, 0, 0, 0, 9, 173, 163, 0, 0, 0, 0, 0, 10, 240, 148, 112, 0, 0, 0, 0,
    11, 224, 147, 128, 0, 0, 0, 0, 12, 217, 176, 240, 0, 0, 0, 0, 13, 192, 117, 128, 0, 0, 0, 0,
    14, 185, 146, 240, 0, 0, 0, 0, 15, 169, 146, 0, 0, 0, 0, 0, 16, 153, 116, 240, 0, 0, 0, 0, 17,
    137, 116, 0, 0, 0, 0, 0, 18, 121, 86, 240, 0, 0, 0, 0, 19, 105, 86, 0, 0, 0, 0, 0, 20, 89, 56,
    240, 0, 0, 0, 0, 21, 73, 56, 0, 0, 0, 0, 0, 22, 57, 26, 240, 0, 0, 0, 0, 23, 41, 26, 0, 0, 0,
    0, 0, 24, 34, 55, 112, 0, 0, 0, 0, 25, 8, 252, 0, 0, 0, 0, 0, 26, 2, 25, 112, 0, 0, 0, 0, 26,
    242, 24, 128, 0, 0, 0, 0, 27, 225, 251, 112, 0, 0, 0, 0, 28, 209, 250, 128, 0, 0, 0, 0, 29,
    193, 221, 112, 0, 0, 0, 0, 30, 177, 220, 128, 0, 0, 0, 0, 31, 161, 191, 112, 0, 0, 0, 0, 32,
    118, 15, 0, 0, 0, 0, 0, 33, 129, 161, 112, 0, 0, 0, 0, 34, 85, 241, 0, 0, 0, 0, 0, 35, 106,
    189, 240, 0, 0, 0, 0, 36, 53, 211, 0, 0, 0, 0, 0, 37, 74, 159, 240, 0, 0, 0, 0, 38, 21, 181,
    0, 0, 0, 0, 0, 39, 42, 129, 240, 0, 0, 0, 0, 39, 254, 209, 128, 0, 0, 0, 0, 41, 10, 99, 240,
    0, 0, 0, 0, 41, 222, 179, 128, 0, 0, 0, 0, 42, 234, 69, 240, 0, 0, 0, 0, 43, 190, 149, 128, 0,
    0, 0, 0, 44, 211, 98, 112, 0, 0, 0, 0, 45, 158, 119, 128, 0, 0, 0, 0, 46, 179, 68, 112, 0, 0,
    0, 0, 47, 126, 89, 128, 0, 0, 0, 0, 48, 147, 38, 112, 0, 0, 0, 0, 49, 103, 118, 0, 0, 0, 0, 0,
    50, 115, 8, 112, 0, 0, 0, 0, 51, 71, 88, 0, 0, 0, 0, 0, 52, 82, 234, 112, 0, 0, 0, 0, 53, 39,
    58, 0, 0, 0, 0, 0, 54, 50, 204, 112, 0, 0, 0, 0, 55, 7, 28, 0, 0, 0, 0, 0, 56, 27, 232, 240,
    0, 0, 0, 0, 56, 230, 254, 0, 0, 0, 0, 0, 57, 251, 202, 240, 0, 0, 0, 0, 58, 198, 209, 240, 0,
    0, 0, 0, 59, 219, 158, 224, 0, 0, 0, 0, 60, 175, 238, 112, 0, 0, 0, 0, 61, 187, 128, 224, 0,
    0, 0, 0, 62, 143, 208, 112, 0, 0, 0, 0, 63, 155, 98, 224, 0, 0, 0, 0, 64, 111, 178, 112, 0, 0,
    0, 0, 65, 132, 127, 96, 0, 0, 0, 0, 66, 79, 148, 112, 0, 0, 0, 0, 67, 100, 97, 96, 0, 0, 0, 0,
    68, 47, 118, 112, 0, 0, 0, 0, 69, 68, 67, 96, 0, 0, 0, 0, 69, 243, 168, 240, 2, 1, 2, 1, 2, 3,
    4, 2, 1, 2, 1, 2, 1, 2, 1, 2, 1, 2, 1, 2, 1, 2, 1, 2, 1, 2, 1, 2, 1, 2, 1, 2, 1, 2, 1, 2, 1,
    2, 1, 2, 1, 2, 1, 2, 1, 2, 1, 2, 1, 2, 1, 2, 1, 2, 1, 2, 1, 2, 1, 2, 1, 2, 1, 2, 1, 2, 1, 2,
    1, 2, 1, 2, 1, 6, 5, 6, 5, 6, 5, 6, 5, 6, 5, 6, 5, 6, 5, 255, 255, 176, 116, 0, 0, 255, 255,
    185, 176, 1, 4, 255, 255, 171, 160, 0, 8, 255, 255, 185, 176, 1, 12, 255, 255, 185, 176, 1,
    16, 255, 255, 199, 192, 1, 20, 255, 255, 185, 176, 0, 24, 76, 77, 84, 0, 67, 68, 84, 0, 67,
    83, 84, 0, 67, 87, 84, 0, 67, 80, 84, 0, 69, 68, 84, 0, 69, 83, 84, 0, 10, 69, 83, 84, 53, 69,
    68, 84, 44, 77, 51, 46, 50, 46, 48, 44, 77, 49, 49, 46, 49, 46, 48, 10,
];

/// `America/La_Paz`.
#[verifier::opaque]
pub const AMERICA_LA_PAZ: [u8; 170] = [
    84, 90, 105, 102, 50, 0, 0, 0, 0, 0, 0, 0, 0, 0, 0, 0, 0, 0, 0, 0, 0, 0, 0, 0, 0, 0, 0, 0, 0,
    0, 0, 0, 0, 0, 0, 0, 0, 0, 0, 1, 0, 0, 0, 1, 0, 0, 0, 0, 0, 0, 0, 84, 90, 105, 102, 50, 0, 0,
    0, 0, 0, 0, 0, 0, 0, 0, 0, 0, 0, 0, 0, 0, 0, 0, 0, 0, 0, 0, 0, 0, 0, 0, 0, 0, 0, 0, 3, 0, 0,
    0, 4, 0, 0, 0, 16, 255, 255, 255, 255, 105, 135, 27, 100, 255, 255, 255, 255, 184, 30, 150,
    228, 255, 255, 255, 255, 184, 238, 213, 212, 1, 2, 3, 255, 255, 192, 28, 0, 0, 255, 255, 192,
    28, 0, 4, 255, 255, 206, 44, 1, 8, 255, 255, 199, 192, 0, 12, 76, 77, 84, 0, 67, 77, 84, 0,
    66, 83, 84, 0, 45, 48, 52, 0, 10, 60, 45, 48, 52, 62, 52, 10,
];

/// `America/Lima`.
#[verifier::opaque]
pub const AMERICA_LIMA: [u8; 283] = [
    84, 90, 105, 102, 50, 0, 0, 0, 0, 0, 0, 0, 0, 0, 0, 0, 0, 0, 0, 0, 0, 0, 0, 0, 0, 0, 0, 0, 0,
    0, 0, 0, 0, 0, 0, 0, 0, 0, 0, 1, 0, 0, 0, 1, 0, 0, 0, 0, 0, 0, 0, 84, 90, 105, 102, 50, 0, 0,
    0, 0, 0, 0, 0, 0, 0, 0, 0, 0, 0, 0, 0, 0, 0, 0, 0, 0, 0, 0, 0, 0, 0, 0, 0, 0, 0, 0, 16, 0, 0,
    0, 4, 0, 0, 0, 12, 255, 255, 255, 255, 105, 135, 35, 188, 255, 255, 255, 255, 140, 116, 64,
    212, 255, 255, 255, 255, 195, 207, 74, 80, 255, 255, 255, 255, 196, 69, 227, 64, 255, 255,
    255, 255, 197, 47, 74, 208, 255, 255, 255, 255, 198, 31, 45, 192, 255, 255, 255, 255, 199, 15,
    44, 208, 255, 255, 255, 255, 199, 255, 15, 192, 0, 0, 0, 0, 30, 24, 196, 80, 0, 0, 0, 0, 30,
    143, 93, 64, 0, 0, 0, 0, 31, 249, 247, 208, 0, 0, 0, 0, 32, 112, 144, 192, 0, 0, 0, 0, 37,
    158, 227, 208, 0, 0, 0, 0, 38, 21, 124, 192, 0, 0, 0, 0, 45, 37, 3, 80, 0, 0, 0, 0, 45, 155,
    156, 64, 1, 3, 2, 3, 2, 3, 2, 3, 2, 3, 2, 3, 2, 3, 2, 3, 255, 255, 183, 196, 0, 0, 255, 255,
    183, 172, 0, 0, 255, 255, 199, 192, 1, 4, 255, 255, 185, 176, 0, 8, 76, 77, 84, 0, 45, 48, 52,
    0, 45, 48, 53, 0, 10, 60, 45, 48, 53, 62, 53, 10,
];

/// `America/Los_Angeles`.
#[verifier::opaque]
pub const AMERICA_LOS_ANGELES: [u8; 1294] = [
    84, 90, 105, 102, 50, 0, 0, 0, 0, 0, 0, 0, 0, 0, 0, 0, 0, 0, 0, 0, 0, 0, 0, 0, 0, 0, 0, 0, 0,
    0, 0, 0, 0, 0, 0, 0, 0, 0, 0, 1, 0, 0, 0, 1, 0, 0, 0, 0, 0, 0, 0, 84, 90, 105, 102, 50, 0, 0,
    0, 0, 0, 0, 0, 0, 0, 0, 0, 0, 0, 0, 0, 0, 0, 0, 0, 0, 0, 0, 0, 0, 0, 0, 0, 0, 0, 0, 125, 0, 0,
    0, 5, 0, 0, 0, 20, 255, 255, 255, 255, 94, 4, 26, 192, 255, 255, 255, 255, 158, 166, 72, 160,
    255, 255, 255, 255, 159, 187, 21, 144, 255, 255, 255, 255, 160, 134, 42, 160, 255, 255, 255,
    255, 161, 154, 247, 144, 255, 255, 255, 255, 203, 137, 26, 160, 255, 255, 255, 255, 210, 35,
    244, 112, 255, 255, 255, 255, 210, 97, 38, 16, 255, 255, 255, 255, 214, 254, 116, 92, 255,
    255, 255, 255, 216, 128, 173, 144, 255, 255, 255, 255, 218, 254, 195, 144, 255, 255, 255, 255,
    219, 192, 144, 16, 255, 255, 255, 255, 220, 222, 165, 144, 255, 255, 255, 255, 221, 169, 172,
    144, 255, 255, 255, 255, 222, 190, 135, 144, 255, 255, 255, 255, 223, 137, 142, 144, 255, 255,
    255, 255, 224, 158, 105, 144, 255, 255, 255, 255, 225, 105, 112, 144, 255, 255, 255, 255, 226,
    126, 75, 144, 255, 255, 255, 255, 227, 73, 82, 144, 255, 255, 255, 255, 228, 94, 45, 144, 255,
    255, 255, 255, 229, 41, 52, 144, 255, 255, 255, 255, 230, 71, 74, 16, 255, 255, 255, 255, 231,
    18, 81, 16, 255, 255, 255, 255, 232, 39, 44, 16, 255, 255, 255, 255, 232, 242, 51, 16, 255,
    255, 255, 255, 234, 7, 14, 16, 255, 255, 255, 255, 234, 210, 21, 16, 255, 255, 255, 255, 235,
    230, 240, 16, 255, 255, 255, 255, 236, 177, 247, 16, 255, 255, 255, 255, 237, 198, 210, 16,
    255, 255, 255, 255, 238, 145, 217, 16, 255, 255, 255, 255, 239, 175, 238, 144, 255, 255, 255,
    255, 240, 113, 187, 16, 255, 255, 255, 255, 241, 143, 208, 144, 255, 255, 255, 255, 242, 127,
    193, 144, 255, 255, 255, 255, 243, 111, 178, 144, 255, 255, 255, 255, 244, 95, 163, 144, 255,
    255, 255, 255, 245, 79, 148, 144, 255, 255, 255, 255, 246, 63, 133, 144, 255, 255, 255, 255,
    247, 47, 118, 144, 255, 255, 255, 255, 248, 40, 162, 16, 255, 255, 255, 255, 249, 15, 88, 144,
    255, 255, 255, 255, 250, 8, 132, 16, 255, 255, 255, 255, 250, 248, 131, 32, 255, 255, 255,
    255, 251, 232, 102, 16, 255, 255, 255, 255, 252, 216, 101, 32, 255, 255, 255, 255, 253, 200,
    72, 16, 255, 255, 255, 255, 254, 184, 71, 32, 255, 255, 255, 255, 255, 168, 42, 16, 0, 0, 0,
    0, 0, 152, 41, 32, 0, 0, 0, 0, 1, 136, 12, 16, 0, 0, 0, 0, 2, 120, 11, 32, 0, 0, 0, 0, 3, 113,
    40, 144, 0, 0, 0, 0, 4, 97, 39, 160, 0, 0, 0, 0, 5, 81, 10, 144, 0, 0, 0, 0, 6, 65, 9, 160, 0,
    0, 0, 0, 7, 48, 236, 144, 0, 0, 0, 0, 7, 141, 67, 160, 0, 0, 0, 0, 9, 16, 206, 144, 0, 0, 0,
    0, 9, 173, 191, 32, 0, 0, 0, 0, 10, 240, 176, 144, 0, 0, 0, 0, 11, 224, 175, 160, 0, 0, 0, 0,
    12, 217, 205, 16, 0, 0, 0, 0, 13, 192, 145, 160, 0, 0, 0, 0, 14, 185, 175, 16, 0, 0, 0, 0, 15,
    169, 174, 32, 0, 0, 0, 0, 16, 153, 145, 16, 0, 0, 0, 0, 17, 137, 144, 32, 0, 0, 0, 0, 18, 121,
    115, 16, 0, 0, 0, 0, 19, 105, 114, 32, 0, 0, 0, 0, 20, 89, 85, 16, 0, 0, 0, 0, 21, 73, 84, 32,
    0, 0, 0, 0, 22, 57, 55, 16, 0, 0, 0, 0, 23, 41, 54, 32, 0, 0, 0, 0, 24, 34, 83, 144, 0, 0, 0,
    0, 25, 9, 24, 32, 0, 0, 0, 0, 26, 2, 53, 144, 0, 0, 0, 0, 26, 242, 52, 160, 0, 0, 0, 0, 27,
    226, 23, 144, 0, 0, 0, 0, 28, 210, 22, 160, 0, 0, 0, 0, 29, 193, 249, 144, 0, 0, 0, 0, 30,
    177, 248, 160, 0, 0, 0, 0, 31, 161, 219, 144, 0, 0, 0, 0, 32, 118, 43, 32, 0, 0, 0, 0, 33,
    129, 189, 144, 0, 0, 0, 0, 34, 86, 13, 32, 0, 0, 0, 0, 35, 106, 218, 16, 0, 0, 0, 0, 36, 53,
    239, 32, 0, 0, 0, 0, 37, 74, 188, 16, 0, 0, 0, 0, 38, 21, 209, 32, 0, 0, 0, 0, 39, 42, 158,
    16, 0, 0, 0, 0, 39, 254, 237, 160, 0, 0, 0, 0, 41, 10, 128, 16, 0, 0, 0, 0, 41, 222, 207, 160,
    0, 0, 0, 0, 42, 234, 98, 16, 0, 0, 0, 0, 43, 190, 177, 160, 0, 0, 0, 0, 44, 211, 126, 144, 0,
    0, 0, 0, 45, 158, 147, 160, 0, 0, 0, 0, 46, 179, 96, 144, 0, 0, 0, 0, 47, 126, 117, 160, 0, 0,
    0, 0, 48, 147, 66, 144, 0, 0, 0, 0, 49, 103, 146, 32, 0, 0, 0, 0, 50, 115, 36, 144, 0, 0, 0,
    0, 51, 71, 116, 32, 0, 0, 0, 0, 52, 83, 6, 144, 0, 0, 0, 0, 53, 39, 86, 32, 0, 0, 0, 0, 54,
    50, 232, 144, 0, 0, 0, 0, 55, 7, 56, 32, 0, 0, 0, 0, 56, 28, 5, 16, 0, 0, 0, 0, 56, 231, 26,
    32, 0, 0, 0, 0, 57, 251, 231, 16, 0, 0, 0, 0, 58, 198, 252, 32, 0, 0, 0, 0, 59, 219, 201, 16,
    0, 0, 0, 0, 60, 176, 24, 160, 0, 0, 0, 0, 61, 187, 171, 16, 0, 0, 0, 0, 62, 143, 250, 160, 0,
    0, 0, 0, 63, 155, 141, 16, 0, 0, 0, 0, 64, 111, 220, 160, 0, 0, 0, 0, 65, 132, 169, 144, 0, 0,
    0, 0, 66, 79, 190, 160, 0, 0, 0, 0, 67, 100, 139, 144, 0, 0, 0, 0, 68, 47, 160, 160, 0, 0, 0,
    0, 69, 68, 109, 144, 0, 0, 0, 0, 69, 243, 211, 32, 2, 1, 2, 1, 2, 3, 4, 2, 1, 2, 1, 2, 1, 2,
    1, 2, 1, 2, 1, 2, 1, 2, 1, 2, 1, 2, 1, 2, 1, 2, 1, 2, 1, 2, 1, 2, 1, 2, 1, 2, 1, 2, 1, 2, 1,
    2, 1, 2, 1, 2, 1, 2, 1, 2, 1, 2, 1, 2, 1, 2, 1, 2, 1, 2, 1, 2, 1, 2, 1, 2, 1, 2, 1, 2, 1, 2,
    1, 2, 1, 2, 1, 2, 1, 2, 1, 2, 1, 2, 1, 2, 1, 2, 1, 2, 1, 2, 1, 2, 1, 2, 1, 2, 1, 2, 1, 2, 1,
    2, 1, 2, 1, 2, 1, 2, 1, 2, 1, 2, 1, 2, 1, 2, 1, 2, 1, 255, 255, 145, 38, 0, 0, 255, 255, 157,
    144, 1, 4, 255, 255, 143, 128, 0, 8, 255, 255, 157, 144, 1, 12, 255, 255, 157, 144, 1, 16, 76,
    77, 84, 0, 80, 68, 84, 0, 80, 83, 84, 0, 80, 87, 84, 0, 80, 80, 84, 0, 10, 80, 83, 84, 56, 80,
    68, 84, 44, 77, 51, 46, 50, 46, 48, 44, 77, 49, 49, 46, 49, 46, 48, 10,
];

/// `America/Maceio`.
#[verifier::opaque]
pub const AMERICA_MACEIO: [u8; 502] = [
    84, 90, 105, 102, 50, 0, 0, 0, 0, 0, 0, 0, 0, 0, 0, 0, 0, 0, 0, 0, 0, 0, 0, 0, 0, 0, 0, 0, 0,
    0, 0, 0, 0, 0, 0, 0, 0, 0, 0, 1, 0, 0, 0, 1, 0, 0, 0, 0, 0, 0, 0, 84, 90, 105, 102, 50, 0, 0,
    0, 0, 0, 0, 0, 0, 0, 0, 0, 0, 0, 0, 0, 0, 0, 0, 0, 0, 0, 0, 0, 0, 0, 0, 0, 0, 0, 0, 41, 0, 0,
    0, 3, 0, 0, 0, 12, 255, 255, 255, 255, 150, 170, 104, 124, 255, 255, 255, 255, 184, 15, 73,
    224, 255, 255, 255, 255, 184, 253, 64, 160, 255, 255, 255, 255, 185, 241, 52, 48, 255, 255,
    255, 255, 186, 222, 116, 32, 255, 255, 255, 255, 218, 56, 174, 48, 255, 255, 255, 255, 218,
    235, 250, 48, 255, 255, 255, 255, 220, 25, 225, 176, 255, 255, 255, 255, 220, 185, 89, 32,
    255, 255, 255, 255, 221, 251, 21, 48, 255, 255, 255, 255, 222, 155, 222, 32, 255, 255, 255,
    255, 223, 221, 154, 48, 255, 255, 255, 255, 224, 84, 51, 32, 255, 255, 255, 255, 244, 151,
    255, 176, 255, 255, 255, 255, 245, 5, 94, 32, 255, 255, 255, 255, 246, 192, 100, 48, 255, 255,
    255, 255, 247, 14, 30, 160, 255, 255, 255, 255, 248, 81, 44, 48, 255, 255, 255, 255, 248, 199,
    197, 32, 255, 255, 255, 255, 250, 10, 210, 176, 255, 255, 255, 255, 250, 168, 248, 160, 255,
    255, 255, 255, 251, 236, 6, 48, 255, 255, 255, 255, 252, 139, 125, 160, 0, 0, 0, 0, 29, 201,
    142, 48, 0, 0, 0, 0, 30, 120, 215, 160, 0, 0, 0, 0, 31, 160, 53, 176, 0, 0, 0, 0, 32, 51, 207,
    160, 0, 0, 0, 0, 33, 129, 105, 48, 0, 0, 0, 0, 34, 11, 200, 160, 0, 0, 0, 0, 35, 88, 16, 176,
    0, 0, 0, 0, 35, 226, 112, 32, 0, 0, 0, 0, 37, 55, 242, 176, 0, 0, 0, 0, 37, 212, 199, 32, 0,
    0, 0, 0, 48, 128, 121, 48, 0, 0, 0, 0, 49, 29, 77, 160, 0, 0, 0, 0, 55, 246, 198, 176, 0, 0,
    0, 0, 56, 184, 133, 32, 0, 0, 0, 0, 57, 223, 227, 48, 0, 0, 0, 0, 57, 242, 74, 32, 0, 0, 0, 0,
    59, 200, 255, 176, 0, 0, 0, 0, 60, 111, 14, 160, 2, 1, 2, 1, 2, 1, 2, 1, 2, 1, 2, 1, 2, 1, 2,
    1, 2, 1, 2, 1, 2, 1, 2, 1, 2, 1, 2, 1, 2, 1, 2, 1, 2, 1, 2, 1, 2, 1, 2, 1, 2, 255, 255, 222,
    132, 0, 0, 255, 255, 227, 224, 1, 4, 255, 255, 213, 208, 0, 8, 76, 77, 84, 0, 45, 48, 50, 0,
    45, 48, 51, 0, 10, 60, 45, 48, 51, 62, 51, 10,
];

/// `America/Managua`.
#[verifier::opaque]
pub const AMERICA_MANAGUA: [u8; 295] = [
    84, 90, 105, 102, 50, 0, 0, 0, 0, 0, 0, 0, 0, 0, 0, 0, 0, 0, 0, 0, 0, 0, 0, 0, 0, 0, 0, 0, 0,
    0, 0, 0, 0, 0, 0, 0, 0, 0, 0, 1, 0, 0, 0, 1, 0, 0, 0, 0, 0, 0, 0, 84, 90, 105, 102, 50, 0, 0,
    0, 0, 0, 0, 0, 0, 0, 0, 0, 0, 0, 0, 0, 0, 0, 0, 0, 0, 0, 0, 0, 0, 0, 0, 0, 0, 0, 0, 16, 0, 0,
    0, 5, 0, 0, 0, 20, 255, 255, 255, 255, 105, 135, 44, 100, 255, 255, 255, 255, 189, 45, 72,
    232, 0, 0, 0, 0, 6, 67, 116, 96, 0, 0, 0, 0, 9, 164, 62, 80, 0, 0, 0, 0, 17, 81, 248, 224, 0,
    0, 0, 0, 17, 212, 111, 80, 0, 0, 0, 0, 19, 49, 218, 224, 0, 0, 0, 0, 19, 180, 81, 80, 0, 0, 0,
    0, 41, 97, 145, 32, 0, 0, 0, 0, 42, 193, 75, 80, 0, 0, 0, 0, 43, 67, 221, 224, 0, 0, 0, 0, 50,
    201, 239, 80, 0, 0, 0, 0, 66, 88, 192, 224, 0, 0, 0, 0, 67, 63, 105, 80, 0, 0, 0, 0, 68, 84,
    110, 128, 0, 0, 0, 0, 69, 31, 89, 96, 1, 2, 3, 2, 4, 2, 4, 2, 3, 2, 3, 2, 4, 2, 4, 2, 255,
    255, 175, 28, 0, 0, 255, 255, 175, 24, 0, 4, 255, 255, 171, 160, 0, 8, 255, 255, 185, 176, 0,
    12, 255, 255, 185, 176, 1, 16, 76, 77, 84, 0, 77, 77, 84, 0, 67, 83, 84, 0, 69, 83, 84, 0, 67,
    68, 84, 0, 10, 67, 83, 84, 54, 10,
];

/// `America/Manaus`.
#[verifier::opaque]
pub const AMERICA_MANAUS: [u8; 412] = [
    84, 90, 105, 102, 50, 0, 0, 0, 0, 0, 0, 0, 0, 0, 0, 0, 0, 0, 0, 0, 0, 0, 0, 0, 0, 0, 0, 0, 0,
    0, 0, 0, 0, 0, 0, 0, 0, 0, 0, 1, 0, 0, 0, 1, 0, 0, 0, 0, 0, 0, 0, 84, 90, 105, 102, 50, 0, 0,
    0, 0, 0, 0, 0, 0, 0, 0, 0, 0, 0, 0, 0, 0, 0, 0, 0, 0, 0, 0, 0, 0, 0, 0, 0, 0, 0, 0, 31, 0, 0,
    0, 3, 0, 0, 0, 12, 255, 255, 255, 255, 150, 170, 127, 68, 255, 255, 255, 255, 184, 15, 87,
    240, 255, 255, 255, 255, 184, 253, 78, 176, 255, 255, 255, 255, 185, 241, 66, 64, 255, 255,
    255, 255, 186, 222, 130, 48, 255, 255, 255, 255, 218, 56, 188, 64, 255, 255, 255, 255, 218,
    236, 8, 64, 255, 255, 255, 255, 220, 25, 239, 192, 255, 255, 255, 255, 220, 185, 103, 48, 255,
    255, 255, 255, 221, 251, 35, 64, 255, 255, 255, 255, 222, 155, 236, 48, 255, 255, 255, 255,
    223, 221, 168, 64, 255, 255, 255, 255, 224, 84, 65, 48, 255, 255, 255, 255, 244, 152, 13, 192,
    255, 255, 255, 255, 245, 5, 108, 48, 255, 255, 255, 255, 246, 192, 114, 64, 255, 255, 255,
    255, 247, 14, 44, 176, 255, 255, 255, 255, 248, 81, 58, 64, 255, 255, 255, 255, 248, 199, 211,
    48, 255, 255, 255, 255, 250, 10, 224, 192, 255, 255, 255, 255, 250, 169, 6, 176, 255, 255,
    255, 255, 251, 236, 20, 64, 255, 255, 255, 255, 252, 139, 139, 176, 0, 0, 0, 0, 29, 201, 156,
    64, 0, 0, 0, 0, 30, 120, 229, 176, 0, 0, 0, 0, 31, 160, 67, 192, 0, 0, 0, 0, 32, 51, 221, 176,
    0, 0, 0, 0, 33, 129, 119, 64, 0, 0, 0, 0, 34, 11, 214, 176, 0, 0, 0, 0, 44, 192, 195, 64, 0,
    0, 0, 0, 45, 102, 210, 48, 2, 1, 2, 1, 2, 1, 2, 1, 2, 1, 2, 1, 2, 1, 2, 1, 2, 1, 2, 1, 2, 1,
    2, 1, 2, 1, 2, 1, 2, 1, 2, 255, 255, 199, 188, 0, 0, 255, 255, 213, 208, 1, 4, 255, 255, 199,
    192, 0, 8, 76, 77, 84, 0, 45, 48, 51, 0, 45, 48, 52, 0, 10, 60, 45, 48, 52, 62, 52, 10,
];

/// `America/Martinique`.
#[verifier::opaque]
pub const AMERICA_MARTINIQUE: [u8; 178] = [
    84, 90, 105, 102, 50, 0, 0, 0, 0, 0, 0, 0, 0, 0, 0, 0, 0, 0, 0, 0, 0, 0, 0, 0, 0, 0, 0, 0, 0,
    0, 0, 0, 0, 0, 0, 0, 0, 0, 0, 1, 0, 0, 0, 1, 0, 0, 0, 0, 0, 0, 0, 84, 90, 105, 102, 50, 0, 0,
    0, 0, 0, 0, 0, 0, 0, 0, 0, 0, 0, 0, 0, 0, 0, 0, 0, 0, 0, 0, 0, 0, 0, 0, 0, 0, 0, 0, 4, 0, 0,
    0, 4, 0, 0, 0, 17, 255, 255, 255, 255, 105, 135, 20, 196, 255, 255, 255, 255, 145, 163, 200,
    68, 0, 0, 0, 0, 19, 77, 110, 64, 0, 0, 0, 0, 20, 52, 22, 176, 1, 2, 3, 2, 255, 255, 198, 188,
    0, 0, 255, 255, 198, 188, 0, 4, 255, 255, 199, 192, 0, 9, 255, 255, 213, 208, 1, 13, 76, 77,
    84, 0, 70, 70, 77, 84, 0, 65, 83, 84, 0, 65, 68, 84, 0, 10, 65, 83, 84, 52, 10,
];

/// `America/Matamoros`.
#[verifier::opaque]
pub const AMERICA_MATAMOROS: [u8; 437] = [
    84, 90, 105, 102, 50, 0, 0, 0, 0, 0, 0, 0, 0, 0, 0, 0, 0, 0, 0, 0, 0, 0, 0, 0, 0, 0, 0, 0, 0,
    0, 0, 0, 0, 0, 0, 0, 0, 0, 0, 1, 0, 0, 0, 1, 0, 0, 0, 0, 0, 0, 0, 84, 90, 105, 102, 50, 0, 0,
    0, 0, 0, 0, 0, 0, 0, 0, 0, 0, 0, 0, 0, 0, 0, 0, 0, 0, 0, 0, 0, 0, 0, 0, 0, 0, 0, 0, 32, 0, 0,
    0, 3, 0, 0, 0, 12, 255, 255, 255, 255, 165, 182, 218, 96, 0, 0, 0, 0, 34, 85, 241, 0, 0, 0, 0,
    0, 35, 106, 189, 240, 0, 0, 0, 0, 49, 103, 118, 0, 0, 0, 0, 0, 50, 115, 8, 112, 0, 0, 0, 0,
    51, 71, 88, 0, 0, 0, 0, 0, 52, 82, 234, 112, 0, 0, 0, 0, 53, 39, 58, 0, 0, 0, 0, 0, 54, 50,
    204, 112, 0, 0, 0, 0, 55, 7, 28, 0, 0, 0, 0, 0, 56, 27, 232, 240, 0, 0, 0, 0, 56, 230, 254, 0,
    0, 0, 0, 0, 57, 251, 202, 240, 0, 0, 0, 0, 58, 245, 4, 128, 0, 0, 0, 0, 59, 182, 194, 240, 0,
    0, 0, 0, 60, 175, 252, 128, 0, 0, 0, 0, 61, 187, 142, 240, 0, 0, 0, 0, 62, 143, 222, 128, 0,
    0, 0, 0, 63, 155, 112, 240, 0, 0, 0, 0, 64, 111, 192, 128, 0, 0, 0, 0, 65, 132, 141, 112, 0,
    0, 0, 0, 66, 79, 162, 128, 0, 0, 0, 0, 67, 100, 111, 112, 0, 0, 0, 0, 68, 47, 132, 128, 0, 0,
    0, 0, 69, 68, 81, 112, 0, 0, 0, 0, 70, 15, 102, 128, 0, 0, 0, 0, 71, 36, 51, 112, 0, 0, 0, 0,
    71, 248, 131, 0, 0, 0, 0, 0, 73, 4, 21, 112, 0, 0, 0, 0, 73, 216, 101, 0, 0, 0, 0, 0, 74, 227,
    247, 112, 0, 0, 0, 0, 75, 61, 143, 96, 1, 2, 1, 2, 1, 2, 1, 2, 1, 2, 1, 2, 1, 2, 1, 2, 1, 2,
    1, 2, 1, 2, 1, 2, 1, 2, 1, 2, 1, 2, 1, 1, 255, 255, 164, 152, 0, 0, 255, 255, 171, 160, 0, 4,
    255, 255, 185, 176, 1, 8, 76, 77, 84, 0, 67, 83, 84, 0, 67, 68, 84, 0, 10, 67, 83, 84, 54, 67,
    68, 84, 44, 77, 51, 46, 50, 46, 48, 44, 77, 49, 49, 46, 49, 46, 48, 10,
];

/// `America/Mazatlan`.
#[verifier::opaque]
pub const AMERICA_MAZATLAN: [u8; 690] = [
    84, 90, 105, 102, 50, 0, 0, 0, 0, 0, 0, 0, 0, 0, 0, 0, 0, 0, 0, 0, 0, 0, 0, 0, 0, 0, 0, 0, 0,
    0, 0, 0, 0, 0, 0, 0, 0, 0, 0, 1, 0, 0, 0, 1, 0, 0, 0, 0, 0, 0, 0, 84, 90, 105, 102, 50, 0, 0,
    0, 0, 0, 0, 0, 0, 0, 0, 0, 0, 0, 0, 0, 0, 0, 0, 0, 0, 0, 0, 0, 0, 0, 0, 0, 0, 0, 0, 61, 0, 0,
    0, 4, 0, 0, 0, 16, 255, 255, 255, 255, 165, 182, 232, 112, 255, 255, 255, 255, 175, 241, 43,
    112, 255, 255, 255, 255, 182, 102, 86, 96, 255, 255, 255, 255, 183, 65, 61, 112, 255, 255,
    255, 255, 184, 12, 54, 96, 255, 255, 255, 255, 184, 253, 134, 240, 255, 255, 255, 255, 203,
    234, 113, 96, 0, 0, 0, 0, 49, 103, 132, 16, 0, 0, 0, 0, 50, 115, 22, 128, 0, 0, 0, 0, 51, 71,
    102, 16, 0, 0, 0, 0, 52, 82, 248, 128, 0, 0, 0, 0, 53, 39, 72, 16, 0, 0, 0, 0, 54, 50, 218,
    128, 0, 0, 0, 0, 55, 7, 42, 16, 0, 0, 0, 0, 56, 27, 247, 0, 0, 0, 0, 0, 56, 231, 12, 16, 0, 0,
    0, 0, 57, 251, 217, 0, 0, 0, 0, 0, 58, 245, 18, 144, 0, 0, 0, 0, 59, 182, 209, 0, 0, 0, 0, 0,
    60, 176, 10, 144, 0, 0, 0, 0, 61, 187, 157, 0, 0, 0, 0, 0, 62, 143, 236, 144, 0, 0, 0, 0, 63,
    155, 127, 0, 0, 0, 0, 0, 64, 111, 206, 144, 0, 0, 0, 0, 65, 132, 155, 128, 0, 0, 0, 0, 66, 79,
    176, 144, 0, 0, 0, 0, 67, 100, 125, 128, 0, 0, 0, 0, 68, 47, 146, 144, 0, 0, 0, 0, 69, 68, 95,
    128, 0, 0, 0, 0, 70, 15, 116, 144, 0, 0, 0, 0, 71, 36, 65, 128, 0, 0, 0, 0, 71, 248, 145, 16,
    0, 0, 0, 0, 73, 4, 35, 128, 0, 0, 0, 0, 73, 216, 115, 16, 0, 0, 0, 0, 74, 228, 5, 128, 0, 0,
    0, 0, 75, 184, 85, 16, 0, 0, 0, 0, 76, 205, 34, 0, 0, 0, 0, 0, 77, 152, 55, 16, 0, 0, 0, 0,
    78, 173, 4, 0, 0, 0, 0, 0, 79, 120, 25, 16, 0, 0, 0, 0, 80, 140, 230, 0, 0, 0, 0, 0, 81, 97,
    53, 144, 0, 0, 0, 0, 82, 108, 200, 0, 0, 0, 0, 0, 83, 65, 23, 144, 0, 0, 0, 0, 84, 76, 170, 0,
    0, 0, 0, 0, 85, 32, 249, 144, 0, 0, 0, 0, 86, 44, 140, 0, 0, 0, 0, 0, 87, 0, 219, 144, 0, 0,
    0, 0, 88, 21, 168, 128, 0, 0, 0, 0, 88, 224, 189, 144, 0, 0, 0, 0, 89, 245, 138, 128, 0, 0, 0,
    0, 90, 192, 159, 144, 0, 0, 0, 0, 91, 213, 108, 128, 0, 0, 0, 0, 92, 169, 188, 16, 0, 0, 0, 0,
    93, 181, 78, 128, 0, 0, 0, 0, 94, 137, 158, 16, 0, 0, 0, 0, 95, 149, 48, 128, 0, 0, 0, 0, 96,
    105, 128, 16, 0, 0, 0, 0, 97, 126, 77, 0, 0, 0, 0, 0, 98, 73, 98, 16, 0, 0, 0, 0, 99, 94, 47,
    0, 1, 2, 1, 3, 1, 2, 1, 3, 1, 3, 1, 3, 1, 3, 1, 3, 1, 3, 1, 3, 1, 3, 1, 3, 1, 3, 1, 3, 1, 3,
    1, 3, 1, 3, 1, 3, 1, 3, 1, 3, 1, 3, 1, 3, 1, 3, 1, 3, 1, 3, 1, 3, 1, 3, 1, 3, 1, 3, 1, 3, 1,
    255, 255, 156, 60, 0, 0, 255, 255, 157, 144, 0, 4, 255, 255, 171, 160, 0, 8, 255, 255, 171,
    160, 1, 12, 76, 77, 84, 0, 77, 83, 84, 0, 67, 83, 84, 0, 77, 68, 84, 0, 10, 77, 83, 84, 55,
    10,
];

/// `America/Menominee`.
#[verifier::opaque]
pub const AMERICA_MENOMINEE: [u8; 917] = [
    84, 90, 105, 102, 50, 0, 0, 0, 0, 0, 0, 0, 0, 0, 0, 0, 0, 0, 0, 0, 0, 0, 0, 0, 0, 0, 0, 0, 0,
    0, 0, 0, 0, 0, 0, 0, 0, 0, 0, 1, 0, 0, 0, 1, 0, 0, 0, 0, 0, 0, 0, 84, 90, 105, 102, 50, 0, 0,
    0, 0, 0, 0, 0, 0, 0, 0, 0, 0, 0, 0, 0, 0, 0, 0, 0, 0, 0, 0, 0, 0, 0, 0, 0, 0, 0, 0, 82, 0, 0,
    0, 6, 0, 0, 0, 24, 255, 255, 255, 255, 97, 119, 73, 99, 255, 255, 255, 255, 158, 166, 44, 128,
    255, 255, 255, 255, 159, 186, 249, 112, 255, 255, 255, 255, 160, 134, 14, 128, 255, 255, 255,
    255, 161, 154, 219, 112, 255, 255, 255, 255, 203, 136, 254, 128, 255, 255, 255, 255, 210, 35,
    244, 112, 255, 255, 255, 255, 210, 97, 9, 240, 255, 255, 255, 255, 211, 117, 243, 0, 255, 255,
    255, 255, 212, 64, 235, 240, 255, 255, 255, 255, 249, 15, 74, 128, 255, 255, 255, 255, 250, 8,
    103, 240, 255, 255, 255, 255, 254, 184, 43, 0, 0, 0, 0, 0, 6, 64, 223, 112, 0, 0, 0, 0, 7, 48,
    208, 112, 0, 0, 0, 0, 7, 141, 39, 128, 0, 0, 0, 0, 9, 16, 178, 112, 0, 0, 0, 0, 9, 173, 163,
    0, 0, 0, 0, 0, 10, 240, 148, 112, 0, 0, 0, 0, 11, 224, 147, 128, 0, 0, 0, 0, 12, 217, 176,
    240, 0, 0, 0, 0, 13, 192, 117, 128, 0, 0, 0, 0, 14, 185, 146, 240, 0, 0, 0, 0, 15, 169, 146,
    0, 0, 0, 0, 0, 16, 153, 116, 240, 0, 0, 0, 0, 17, 137, 116, 0, 0, 0, 0, 0, 18, 121, 86, 240,
    0, 0, 0, 0, 19, 105, 86, 0, 0, 0, 0, 0, 20, 89, 56, 240, 0, 0, 0, 0, 21, 73, 56, 0, 0, 0, 0,
    0, 22, 57, 26, 240, 0, 0, 0, 0, 23, 41, 26, 0, 0, 0, 0, 0, 24, 34, 55, 112, 0, 0, 0, 0, 25, 8,
    252, 0, 0, 0, 0, 0, 26, 2, 25, 112, 0, 0, 0, 0, 26, 242, 24, 128, 0, 0, 0, 0, 27, 225, 251,
    112, 0, 0, 0, 0, 28, 209, 250, 128, 0, 0, 0, 0, 29, 193, 221, 112, 0, 0, 0, 0, 30, 177, 220,
    128, 0, 0, 0, 0, 31, 161, 191, 112, 0, 0, 0, 0, 32, 118, 15, 0, 0, 0, 0, 0, 33, 129, 161, 112,
    0, 0, 0, 0, 34, 85, 241, 0, 0, 0, 0, 0, 35, 106, 189, 240, 0, 0, 0, 0, 36, 53, 211, 0, 0, 0,
    0, 0, 37, 74, 159, 240, 0, 0, 0, 0, 38, 21, 181, 0, 0, 0, 0, 0, 39, 42, 129, 240, 0, 0, 0, 0,
    39, 254, 209, 128, 0, 0, 0, 0, 41, 10, 99, 240, 0, 0, 0, 0, 41, 222, 179, 128, 0, 0, 0, 0, 42,
    234, 69, 240, 0, 0, 0, 0, 43, 190, 149, 128, 0, 0, 0, 0, 44, 211, 98, 112, 0, 0, 0, 0, 45,
    158, 119, 128, 0, 0, 0, 0, 46, 179, 68, 112, 0, 0, 0, 0, 47, 126, 89, 128, 0, 0, 0, 0, 48,
    147, 38, 112, 0, 0, 0, 0, 49, 103, 118, 0, 0, 0, 0, 0, 50, 115, 8, 112, 0, 0, 0, 0, 51, 71,
    88, 0, 0, 0, 0, 0, 52, 82, 234, 112, 0, 0, 0, 0, 53, 39, 58, 0, 0, 0, 0, 0, 54, 50, 204, 112,
    0, 0, 0, 0, 55, 7, 28, 0, 0, 0, 0, 0, 56, 27, 232, 240, 0, 0, 0, 0, 56, 230, 254, 0, 0, 0, 0,
    0, 57, 251, 202, 240, 0, 0, 0, 0, 58, 198, 224, 0, 0, 0, 0, 0, 59, 219, 172, 240, 0, 0, 0, 0,
    60, 175, 252, 128, 0, 0, 0, 0, 61, 187, 142, 240, 0, 0, 0, 0, 62, 143, 222, 128, 0, 0, 0, 0,
    63, 155, 112, 240, 0, 0, 0, 0, 64, 111, 192, 128, 0, 0, 0, 0, 65, 132, 141, 112, 0, 0, 0, 0,
    66, 79, 162, 128, 0, 0, 0, 0, 67, 100, 111, 112, 0, 0, 0, 0, 68, 47, 132, 128, 0, 0, 0, 0, 69,
    68, 81, 112, 0, 0, 0, 0, 69, 243, 183, 0, 2, 1, 2, 1, 2, 3, 4, 2, 1, 2, 1, 2, 5, 1, 2, 1, 2,
    1, 2, 1, 2, 1, 2, 1, 2, 1, 2, 1, 2, 1, 2, 1, 2, 1, 2, 1, 2, 1, 2, 1, 2, 1, 2, 1, 2, 1, 2, 1,
    2, 1, 2, 1, 2, 1, 2, 1, 2, 1, 2, 1, 2, 1, 2, 1, 2, 1, 2, 1, 2, 1, 2, 1, 2, 1, 2, 1, 2, 1, 2,
    1, 2, 1, 255, 255, 173, 221, 0, 0, 255, 255, 185, 176, 1, 4, 255, 255, 171, 160, 0, 8, 255,
    255, 185, 176, 1, 12, 255, 255, 185, 176, 1, 16, 255, 255, 185, 176, 0, 20, 76, 77, 84, 0, 67,
    68, 84, 0, 67, 83, 84, 0, 67, 87, 84, 0, 67, 80, 84, 0, 69, 83, 84, 0, 10, 67, 83, 84, 54, 67,
    68, 84, 44, 77, 51, 46, 50, 46, 48, 44, 77, 49, 49, 46, 49, 46, 48, 10,
];

/// `America/Merida`.
#[verifier::opaque]
pub const AMERICA_MERIDA: [u8; 654] = [
    84, 90, 105, 102, 50, 0, 0, 0, 0, 0, 0, 0, 0, 0, 0, 0, 0, 0, 0, 0, 0, 0, 0, 0, 0, 0, 0, 0, 0,
    0, 0, 0, 0, 0, 0, 0, 0, 0, 0, 1, 0, 0, 0, 1, 0, 0, 0, 0, 0, 0, 0, 84, 90, 105, 102, 50, 0, 0,
    0, 0, 0, 0, 0, 0, 0, 0, 0, 0, 0, 0, 0, 0, 0, 0, 0, 0, 0, 0, 0, 0, 0, 0, 0, 0, 0, 0, 57, 0, 0,
    0, 4, 0, 0, 0, 16, 255, 255, 255, 255, 165, 182, 218, 96, 0, 0, 0, 0, 22, 138, 230, 0, 0, 0,
    0, 0, 24, 36, 218, 112, 0, 0, 0, 0, 49, 103, 118, 0, 0, 0, 0, 0, 50, 115, 8, 112, 0, 0, 0, 0,
    51, 71, 88, 0, 0, 0, 0, 0, 52, 82, 234, 112, 0, 0, 0, 0, 53, 39, 58, 0, 0, 0, 0, 0, 54, 50,
    204, 112, 0, 0, 0, 0, 55, 7, 28, 0, 0, 0, 0, 0, 56, 27, 232, 240, 0, 0, 0, 0, 56, 230, 254, 0,
    0, 0, 0, 0, 57, 251, 202, 240, 0, 0, 0, 0, 58, 245, 4, 128, 0, 0, 0, 0, 59, 182, 194, 240, 0,
    0, 0, 0, 60, 175, 252, 128, 0, 0, 0, 0, 61, 187, 142, 240, 0, 0, 0, 0, 62, 143, 222, 128, 0,
    0, 0, 0, 63, 155, 112, 240, 0, 0, 0, 0, 64, 111, 192, 128, 0, 0, 0, 0, 65, 132, 141, 112, 0,
    0, 0, 0, 66, 79, 162, 128, 0, 0, 0, 0, 67, 100, 111, 112, 0, 0, 0, 0, 68, 47, 132, 128, 0, 0,
    0, 0, 69, 68, 81, 112, 0, 0, 0, 0, 70, 15, 102, 128, 0, 0, 0, 0, 71, 36, 51, 112, 0, 0, 0, 0,
    71, 248, 131, 0, 0, 0, 0, 0, 73, 4, 21, 112, 0, 0, 0, 0, 73, 216, 101, 0, 0, 0, 0, 0, 74, 227,
    247, 112, 0, 0, 0, 0, 75, 184, 71, 0, 0, 0, 0, 0, 76, 205, 19, 240, 0, 0, 0, 0, 77, 152, 41,
    0, 0, 0, 0, 0, 78, 172, 245, 240, 0, 0, 0, 0, 79, 120, 11, 0, 0, 0, 0, 0, 80, 140, 215, 240,
    0, 0, 0, 0, 81, 97, 39, 128, 0, 0, 0, 0, 82, 108, 185, 240, 0, 0, 0, 0, 83, 65, 9, 128, 0, 0,
    0, 0, 84, 76, 155, 240, 0, 0, 0, 0, 85, 32, 235, 128, 0, 0, 0, 0, 86, 44, 125, 240, 0, 0, 0,
    0, 87, 0, 205, 128, 0, 0, 0, 0, 88, 21, 154, 112, 0, 0, 0, 0, 88, 224, 175, 128, 0, 0, 0, 0,
    89, 245, 124, 112, 0, 0, 0, 0, 90, 192, 145, 128, 0, 0, 0, 0, 91, 213, 94, 112, 0, 0, 0, 0,
    92, 169, 174, 0, 0, 0, 0, 0, 93, 181, 64, 112, 0, 0, 0, 0, 94, 137, 144, 0, 0, 0, 0, 0, 95,
    149, 34, 112, 0, 0, 0, 0, 96, 105, 114, 0, 0, 0, 0, 0, 97, 126, 62, 240, 0, 0, 0, 0, 98, 73,
    84, 0, 0, 0, 0, 0, 99, 94, 32, 240, 1, 2, 1, 3, 1, 3, 1, 3, 1, 3, 1, 3, 1, 3, 1, 3, 1, 3, 1,
    3, 1, 3, 1, 3, 1, 3, 1, 3, 1, 3, 1, 3, 1, 3, 1, 3, 1, 3, 1, 3, 1, 3, 1, 3, 1, 3, 1, 3, 1, 3,
    1, 3, 1, 3, 1, 3, 1, 255, 255, 171, 252, 0, 0, 255, 255, 171, 160, 0, 4, 255, 255, 185, 176,
    0, 8, 255, 255, 185, 176, 1, 12, 76, 77, 84, 0, 67, 83, 84, 0, 69, 83, 84, 0, 67, 68, 84, 0,
    10, 67, 83, 84, 54, 10,
];

/// `America/Metlakatla`.
#[verifier::opaque]
pub const AMERICA_METLAKATLA: [u8; 586] = [
    84, 90, 105, 102, 50, 0, 0, 0, 0, 0, 0, 0, 0, 0, 0, 0, 0, 0, 0, 0, 0, 0, 0, 0, 0, 0, 0, 0, 0,
    0, 0, 0, 0, 0, 0, 0, 0, 0, 0, 1, 0, 0, 0, 1, 0, 0, 0, 0, 0, 0, 0, 84, 90, 105, 102, 50, 0, 0,
    0, 0, 0, 0, 0, 0, 0, 0, 0, 0, 0, 0, 0, 0, 0, 0, 0, 0, 0, 0, 0, 0, 0, 0, 0, 0, 0, 0, 43, 0, 0,
    0, 8, 0, 0, 0, 30, 255, 255, 255, 255, 63, 194, 253, 209, 255, 255, 255, 255, 125, 135, 48,
    26, 255, 255, 255, 255, 203, 137, 26, 160, 255, 255, 255, 255, 210, 35, 244, 112, 255, 255,
    255, 255, 210, 97, 38, 16, 255, 255, 255, 255, 254, 184, 71, 32, 255, 255, 255, 255, 255, 168,
    42, 16, 0, 0, 0, 0, 0, 152, 41, 32, 0, 0, 0, 0, 1, 136, 12, 16, 0, 0, 0, 0, 2, 120, 11, 32, 0,
    0, 0, 0, 3, 113, 40, 144, 0, 0, 0, 0, 4, 97, 39, 160, 0, 0, 0, 0, 5, 81, 10, 144, 0, 0, 0, 0,
    6, 65, 9, 160, 0, 0, 0, 0, 7, 48, 236, 144, 0, 0, 0, 0, 7, 141, 67, 160, 0, 0, 0, 0, 9, 16,
    206, 144, 0, 0, 0, 0, 9, 173, 191, 32, 0, 0, 0, 0, 10, 240, 176, 144, 0, 0, 0, 0, 11, 224,
    175, 160, 0, 0, 0, 0, 12, 217, 205, 16, 0, 0, 0, 0, 13, 192, 145, 160, 0, 0, 0, 0, 14, 185,
    175, 16, 0, 0, 0, 0, 15, 169, 174, 32, 0, 0, 0, 0, 16, 153, 145, 16, 0, 0, 0, 0, 17, 137, 144,
    32, 0, 0, 0, 0, 18, 121, 115, 16, 0, 0, 0, 0, 19, 105, 114, 32, 0, 0, 0, 0, 20, 89, 85, 16, 0,
    0, 0, 0, 21, 73, 84, 32, 0, 0, 0, 0, 22, 57, 55, 16, 0, 0, 0, 0, 23, 41, 54, 32, 0, 0, 0, 0,
    24, 34, 83, 144, 0, 0, 0, 0, 25, 9, 24, 32, 0, 0, 0, 0, 26, 2, 53, 144, 0, 0, 0, 0, 86, 53,
    226, 160, 0, 0, 0, 0, 86, 229, 72, 48, 0, 0, 0, 0, 88, 30, 255, 32, 0, 0, 0, 0, 88, 197, 42,
    48, 0, 0, 0, 0, 89, 254, 225, 32, 0, 0, 0, 0, 90, 165, 12, 48, 0, 0, 0, 0, 91, 222, 195, 32,
    0, 0, 0, 0, 92, 68, 70, 160, 1, 2, 3, 4, 2, 5, 2, 5, 2, 5, 2, 5, 2, 5, 2, 5, 2, 5, 2, 5, 2, 5,
    2, 5, 2, 5, 2, 5, 2, 5, 2, 5, 2, 5, 2, 6, 7, 6, 7, 6, 7, 2, 6, 0, 0, 214, 38, 0, 0, 255, 255,
    132, 166, 0, 0, 255, 255, 143, 128, 0, 4, 255, 255, 157, 144, 1, 8, 255, 255, 157, 144, 1, 12,
    255, 255, 157, 144, 1, 16, 255, 255, 129, 112, 0, 20, 255, 255, 143, 128, 1, 25, 76, 77, 84,
    0, 80, 83, 84, 0, 80, 87, 84, 0, 80, 80, 84, 0, 80, 68, 84, 0, 65, 75, 83, 84, 0, 65, 75, 68,
    84, 0, 10, 65, 75, 83, 84, 57, 65, 75, 68, 84, 44, 77, 51, 46, 50, 46, 48, 44, 77, 49, 49, 46,
    49, 46, 48, 10,
];

/// `America/Mexico_City`.
#[verifier::opaque]
pub const AMERICA_MEXICO_CITY: [u8; 773] = [
    84, 90, 105, 102, 50, 0, 0, 0, 0, 0, 0, 0, 0, 0, 0, 0, 0, 0, 0, 0, 0, 0, 0, 0, 0, 0, 0, 0, 0,
    0, 0, 0, 0, 0, 0, 0, 0, 0, 0, 1, 0, 0, 0, 1, 0, 0, 0, 0, 0, 0, 0, 84, 90, 105, 102, 50, 0, 0,
    0, 0, 0, 0, 0, 0, 0, 0, 0, 0, 0, 0, 0, 0, 0, 0, 0, 0, 0, 0, 0, 0, 0, 0, 0, 0, 0, 0, 68, 0, 0,
    0, 6, 0, 0, 0, 24, 255, 255, 255, 255, 165, 182, 232, 112, 255, 255, 255, 255, 175, 241, 43,
    112, 255, 255, 255, 255, 182, 102, 86, 96, 255, 255, 255, 255, 183, 65, 61, 112, 255, 255,
    255, 255, 184, 12, 54, 96, 255, 255, 255, 255, 184, 253, 134, 240, 255, 255, 255, 255, 197,
    222, 176, 96, 255, 255, 255, 255, 198, 151, 52, 80, 255, 255, 255, 255, 201, 85, 241, 224,
    255, 255, 255, 255, 201, 234, 221, 80, 255, 255, 255, 255, 207, 2, 198, 224, 255, 255, 255,
    255, 207, 183, 86, 80, 255, 255, 255, 255, 218, 153, 21, 224, 255, 255, 255, 255, 219, 118,
    131, 208, 0, 0, 0, 0, 49, 103, 118, 0, 0, 0, 0, 0, 50, 115, 8, 112, 0, 0, 0, 0, 51, 71, 88, 0,
    0, 0, 0, 0, 52, 82, 234, 112, 0, 0, 0, 0, 53, 39, 58, 0, 0, 0, 0, 0, 54, 50, 204, 112, 0, 0,
    0, 0, 55, 7, 28, 0, 0, 0, 0, 0, 56, 27, 232, 240, 0, 0, 0, 0, 56, 230, 254, 0, 0, 0, 0, 0, 57,
    251, 202, 240, 0, 0, 0, 0, 58, 245, 4, 128, 0, 0, 0, 0, 59, 182, 194, 240, 0, 0, 0, 0, 60,
    175, 252, 128, 0, 0, 0, 0, 61, 187, 142, 240, 0, 0, 0, 0, 62, 143, 222, 128, 0, 0, 0, 0, 63,
    155, 112, 240, 0, 0, 0, 0, 64, 111, 192, 128, 0, 0, 0, 0, 65, 132, 141, 112, 0, 0, 0, 0, 66,
    79, 162, 128, 0, 0, 0, 0, 67, 100, 111, 112, 0, 0, 0, 0, 68, 47, 132, 128, 0, 0, 0, 0, 69, 68,
    81, 112, 0, 0, 0, 0, 70, 15, 102, 128, 0, 0, 0, 0, 71, 36, 51, 112, 0, 0, 0, 0, 71, 248, 131,
    0, 0, 0, 0, 0, 73, 4, 21, 112, 0, 0, 0, 0, 73, 216, 101, 0, 0, 0, 0, 0, 74, 227, 247, 112, 0,
    0, 0, 0, 75, 184, 71, 0, 0, 0, 0, 0, 76, 205, 19, 240, 0, 0, 0, 0, 77, 152, 41, 0, 0, 0, 0, 0,
    78, 172, 245, 240, 0, 0, 0, 0, 79, 120, 11, 0, 0, 0, 0, 0, 80, 140, 215, 240, 0, 0, 0, 0, 81,
    97, 39, 128, 0, 0, 0, 0, 82, 108, 185, 240, 0, 0, 0, 0, 83, 65, 9, 128, 0, 0, 0, 0, 84, 76,
    155, 240, 0, 0, 0, 0, 85, 32, 235, 128, 0, 0, 0, 0, 86, 44, 125, 240, 0, 0, 0, 0, 87, 0, 205,
    128, 0, 0, 0, 0, 88, 21, 154, 112, 0, 0, 0, 0, 88, 224, 175, 128, 0, 0, 0, 0, 89, 245, 124,
    112, 0, 0, 0, 0, 90, 192, 145, 128, 0, 0, 0, 0, 91, 213, 94, 112, 0, 0, 0, 0, 92, 169, 174, 0,
    0, 0, 0, 0, 93, 181, 64, 112, 0, 0, 0, 0, 94, 137, 144, 0, 0, 0, 0, 0, 95, 149, 34, 112, 0, 0,
    0, 0, 96, 105, 114, 0, 0, 0, 0, 0, 97, 126, 62, 240, 0, 0, 0, 0, 98, 73, 84, 0, 0, 0, 0, 0,
    99, 94, 32, 240, 1, 2, 1, 3, 1, 2, 4, 2, 4, 2, 5, 2, 4, 2, 4, 2, 4, 2, 4, 2, 4, 2, 4, 2, 4, 2,
    4, 2, 4, 2, 4, 2, 4, 2, 4, 2, 4, 2, 4, 2, 4, 2, 4, 2, 4, 2, 4, 2, 4, 2, 4, 2, 4, 2, 4, 2, 4,
    2, 4, 2, 4, 2, 4, 2, 4, 2, 4, 2, 255, 255, 163, 12, 0, 0, 255, 255, 157, 144, 0, 4, 255, 255,
    171, 160, 0, 8, 255, 255, 171, 160, 1, 12, 255, 255, 185, 176, 1, 16, 255, 255, 185, 176, 1,
    20, 76, 77, 84, 0, 77, 83, 84, 0, 67, 83, 84, 0, 77, 68, 84, 0, 67, 68, 84, 0, 67, 87, 84, 0,
    10, 67, 83, 84, 54, 10,
];

/// `America/Miquelon`.
#[verifier::opaque]
pub const AMERICA_MIQUELON: [u8; 550] = [
    84, 90, 105, 102, 50, 0, 0, 0, 0, 0, 0, 0, 0, 0, 0, 0, 0, 0, 0, 0, 0, 0, 0, 0, 0, 0, 0, 0, 0,
    0, 0, 0, 0, 0, 0, 0, 0, 0, 0, 1, 0, 0, 0, 1, 0, 0, 0, 0, 0, 0, 0, 84, 90, 105, 102, 50, 0, 0,
    0, 0, 0, 0, 0, 0, 0, 0, 0, 0, 0, 0, 0, 0, 0, 0, 0, 0, 0, 0, 0, 0, 0, 0, 0, 0, 0, 0, 43, 0, 0,
    0, 4, 0, 0, 0, 16, 255, 255, 255, 255, 145, 223, 23, 40, 0, 0, 0, 0, 19, 110, 99, 192, 0, 0,
    0, 0, 32, 117, 228, 208, 0, 0, 0, 0, 33, 129, 119, 64, 0, 0, 0, 0, 34, 85, 198, 208, 0, 0, 0,
    0, 35, 106, 147, 192, 0, 0, 0, 0, 36, 53, 168, 208, 0, 0, 0, 0, 37, 74, 117, 192, 0, 0, 0, 0,
    38, 21, 138, 208, 0, 0, 0, 0, 39, 42, 87, 192, 0, 0, 0, 0, 39, 254, 167, 80, 0, 0, 0, 0, 41,
    10, 57, 192, 0, 0, 0, 0, 41, 222, 137, 80, 0, 0, 0, 0, 42, 234, 27, 192, 0, 0, 0, 0, 43, 190,
    107, 80, 0, 0, 0, 0, 44, 211, 56, 64, 0, 0, 0, 0, 45, 158, 77, 80, 0, 0, 0, 0, 46, 179, 26,
    64, 0, 0, 0, 0, 47, 126, 47, 80, 0, 0, 0, 0, 48, 146, 252, 64, 0, 0, 0, 0, 49, 103, 75, 208,
    0, 0, 0, 0, 50, 114, 222, 64, 0, 0, 0, 0, 51, 71, 45, 208, 0, 0, 0, 0, 52, 82, 192, 64, 0, 0,
    0, 0, 53, 39, 15, 208, 0, 0, 0, 0, 54, 50, 162, 64, 0, 0, 0, 0, 55, 6, 241, 208, 0, 0, 0, 0,
    56, 27, 190, 192, 0, 0, 0, 0, 56, 230, 211, 208, 0, 0, 0, 0, 57, 251, 160, 192, 0, 0, 0, 0,
    58, 198, 181, 208, 0, 0, 0, 0, 59, 219, 130, 192, 0, 0, 0, 0, 60, 175, 210, 80, 0, 0, 0, 0,
    61, 187, 100, 192, 0, 0, 0, 0, 62, 143, 180, 80, 0, 0, 0, 0, 63, 155, 70, 192, 0, 0, 0, 0, 64,
    111, 150, 80, 0, 0, 0, 0, 65, 132, 99, 64, 0, 0, 0, 0, 66, 79, 120, 80, 0, 0, 0, 0, 67, 100,
    69, 64, 0, 0, 0, 0, 68, 47, 90, 80, 0, 0, 0, 0, 69, 68, 39, 64, 0, 0, 0, 0, 69, 243, 140, 208,
    1, 2, 3, 2, 3, 2, 3, 2, 3, 2, 3, 2, 3, 2, 3, 2, 3, 2, 3, 2, 3, 2, 3, 2, 3, 2, 3, 2, 3, 2, 3,
    2, 3, 2, 3, 2, 3, 2, 3, 2, 3, 2, 3, 255, 255, 203, 88, 0, 0, 255, 255, 199, 192, 0, 4, 255,
    255, 213, 208, 0, 8, 255, 255, 227, 224, 1, 12, 76, 77, 84, 0, 65, 83, 84, 0, 45, 48, 51, 0,
    45, 48, 50, 0, 10, 60, 45, 48, 51, 62, 51, 60, 45, 48, 50, 62, 44, 77, 51, 46, 50, 46, 48, 44,
    77, 49, 49, 46, 49, 46, 48, 10,
];

/// `America/Moncton`.
#[verifier::opaque]
pub const AMERICA_MONCTON: [u8; 1493] = [
    84, 90, 105, 102, 50, 0, 0, 0, 0, 0, 0, 0, 0, 0, 0, 0, 0, 0, 0, 0, 0, 0, 0, 0, 0, 0, 0, 0, 0,
    0, 0, 0, 0, 0, 0, 0, 0, 0, 0, 1, 0, 0, 0, 1, 0, 0, 0, 0, 0, 0, 0, 84, 90, 105, 102, 50, 0, 0,
    0, 0, 0, 0, 0, 0, 0, 0, 0, 0, 0, 0, 0, 0, 0, 0, 0, 0, 0, 0, 0, 0, 0, 0, 0, 0, 0, 0, 146, 0, 0,
    0, 6, 0, 0, 0, 24, 255, 255, 255, 255, 94, 30, 237, 188, 255, 255, 255, 255, 128, 241, 182,
    80, 255, 255, 255, 255, 158, 184, 133, 96, 255, 255, 255, 255, 159, 186, 221, 80, 255, 255,
    255, 255, 187, 60, 56, 208, 255, 255, 255, 255, 187, 180, 35, 64, 255, 255, 255, 255, 189, 28,
    26, 208, 255, 255, 255, 255, 189, 148, 5, 64, 255, 255, 255, 255, 190, 251, 252, 208, 255,
    255, 255, 255, 191, 115, 231, 64, 255, 255, 255, 255, 192, 219, 222, 208, 255, 255, 255, 255,
    193, 83, 201, 64, 255, 255, 255, 255, 194, 187, 192, 208, 255, 255, 255, 255, 195, 51, 171,
    64, 255, 255, 255, 255, 196, 155, 162, 208, 255, 255, 255, 255, 197, 19, 141, 64, 255, 255,
    255, 255, 198, 112, 248, 208, 255, 255, 255, 255, 199, 13, 205, 64, 255, 255, 255, 255, 200,
    72, 241, 208, 255, 255, 255, 255, 200, 237, 175, 64, 255, 255, 255, 255, 202, 22, 94, 208,
    255, 255, 255, 255, 202, 214, 203, 192, 255, 255, 255, 255, 203, 136, 226, 96, 255, 255, 255,
    255, 210, 35, 244, 112, 255, 255, 255, 255, 210, 96, 237, 208, 255, 255, 255, 255, 211, 117,
    214, 224, 255, 255, 255, 255, 212, 64, 207, 208, 255, 255, 255, 255, 213, 85, 184, 224, 255,
    255, 255, 255, 214, 32, 177, 208, 255, 255, 255, 255, 215, 53, 154, 224, 255, 255, 255, 255,
    216, 0, 147, 208, 255, 255, 255, 255, 217, 21, 124, 224, 255, 255, 255, 255, 217, 224, 117,
    208, 255, 255, 255, 255, 218, 254, 153, 96, 255, 255, 255, 255, 219, 192, 87, 208, 255, 255,
    255, 255, 220, 222, 123, 96, 255, 255, 255, 255, 221, 169, 116, 80, 255, 255, 255, 255, 222,
    190, 93, 96, 255, 255, 255, 255, 223, 137, 86, 80, 255, 255, 255, 255, 224, 158, 63, 96, 255,
    255, 255, 255, 225, 105, 56, 80, 255, 255, 255, 255, 226, 126, 33, 96, 255, 255, 255, 255,
    227, 73, 26, 80, 255, 255, 255, 255, 228, 94, 3, 96, 255, 255, 255, 255, 229, 40, 252, 80,
    255, 255, 255, 255, 230, 71, 31, 224, 255, 255, 255, 255, 231, 18, 24, 208, 255, 255, 255,
    255, 232, 39, 1, 224, 255, 255, 255, 255, 233, 22, 228, 208, 255, 255, 255, 255, 234, 6, 227,
    224, 255, 255, 255, 255, 234, 246, 198, 208, 255, 255, 255, 255, 235, 230, 197, 224, 255, 255,
    255, 255, 236, 214, 168, 208, 255, 255, 255, 255, 237, 198, 167, 224, 255, 255, 255, 255, 238,
    191, 197, 80, 255, 255, 255, 255, 239, 175, 196, 96, 255, 255, 255, 255, 240, 159, 167, 80,
    255, 255, 255, 255, 241, 143, 166, 96, 255, 255, 255, 255, 242, 127, 137, 80, 255, 255, 255,
    255, 243, 111, 136, 96, 255, 255, 255, 255, 244, 95, 107, 80, 255, 255, 255, 255, 245, 79,
    106, 96, 255, 255, 255, 255, 246, 63, 77, 80, 255, 255, 255, 255, 247, 47, 76, 96, 255, 255,
    255, 255, 248, 40, 105, 208, 255, 255, 255, 255, 249, 15, 46, 96, 255, 255, 255, 255, 250, 8,
    75, 208, 255, 255, 255, 255, 250, 248, 74, 224, 255, 255, 255, 255, 251, 232, 45, 208, 255,
    255, 255, 255, 252, 216, 44, 224, 255, 255, 255, 255, 253, 200, 15, 208, 255, 255, 255, 255,
    254, 184, 14, 224, 255, 255, 255, 255, 255, 167, 241, 208, 0, 0, 0, 0, 0, 151, 240, 224, 0, 0,
    0, 0, 1, 135, 211, 208, 0, 0, 0, 0, 2, 119, 210, 224, 0, 0, 0, 0, 3, 112, 240, 80, 0, 0, 0, 0,
    4, 96, 239, 96, 0, 0, 0, 0, 5, 80, 210, 80, 0, 0, 0, 0, 8, 32, 179, 96, 0, 0, 0, 0, 9, 16,
    150, 80, 0, 0, 0, 0, 10, 0, 149, 96, 0, 0, 0, 0, 10, 240, 120, 80, 0, 0, 0, 0, 11, 224, 119,
    96, 0, 0, 0, 0, 12, 217, 148, 208, 0, 0, 0, 0, 13, 192, 89, 96, 0, 0, 0, 0, 14, 185, 118, 208,
    0, 0, 0, 0, 15, 169, 117, 224, 0, 0, 0, 0, 16, 153, 88, 208, 0, 0, 0, 0, 17, 137, 87, 224, 0,
    0, 0, 0, 18, 121, 58, 208, 0, 0, 0, 0, 19, 105, 57, 224, 0, 0, 0, 0, 20, 89, 28, 208, 0, 0, 0,
    0, 21, 73, 27, 224, 0, 0, 0, 0, 22, 56, 254, 208, 0, 0, 0, 0, 23, 40, 253, 224, 0, 0, 0, 0,
    24, 34, 27, 80, 0, 0, 0, 0, 25, 8, 223, 224, 0, 0, 0, 0, 26, 1, 253, 80, 0, 0, 0, 0, 26, 241,
    252, 96, 0, 0, 0, 0, 27, 225, 223, 80, 0, 0, 0, 0, 28, 209, 222, 96, 0, 0, 0, 0, 29, 193, 193,
    80, 0, 0, 0, 0, 30, 177, 192, 96, 0, 0, 0, 0, 31, 161, 163, 80, 0, 0, 0, 0, 32, 117, 242, 224,
    0, 0, 0, 0, 33, 129, 133, 80, 0, 0, 0, 0, 34, 85, 212, 224, 0, 0, 0, 0, 35, 106, 161, 208, 0,
    0, 0, 0, 36, 53, 182, 224, 0, 0, 0, 0, 37, 74, 131, 208, 0, 0, 0, 0, 38, 21, 152, 224, 0, 0,
    0, 0, 39, 42, 101, 208, 0, 0, 0, 0, 39, 254, 181, 96, 0, 0, 0, 0, 41, 10, 71, 208, 0, 0, 0, 0,
    41, 222, 151, 96, 0, 0, 0, 0, 42, 234, 41, 208, 0, 0, 0, 0, 43, 190, 93, 124, 0, 0, 0, 0, 44,
    211, 42, 108, 0, 0, 0, 0, 45, 158, 63, 124, 0, 0, 0, 0, 46, 179, 12, 108, 0, 0, 0, 0, 47, 126,
    33, 124, 0, 0, 0, 0, 48, 146, 238, 108, 0, 0, 0, 0, 49, 103, 61, 252, 0, 0, 0, 0, 50, 114,
    208, 108, 0, 0, 0, 0, 51, 71, 31, 252, 0, 0, 0, 0, 52, 82, 178, 108, 0, 0, 0, 0, 53, 39, 1,
    252, 0, 0, 0, 0, 54, 50, 148, 108, 0, 0, 0, 0, 55, 6, 227, 252, 0, 0, 0, 0, 56, 27, 176, 236,
    0, 0, 0, 0, 56, 230, 197, 252, 0, 0, 0, 0, 57, 251, 146, 236, 0, 0, 0, 0, 58, 198, 167, 252,
    0, 0, 0, 0, 59, 219, 116, 236, 0, 0, 0, 0, 60, 175, 196, 124, 0, 0, 0, 0, 61, 187, 86, 236, 0,
    0, 0, 0, 62, 143, 166, 124, 0, 0, 0, 0, 63, 155, 56, 236, 0, 0, 0, 0, 64, 111, 136, 124, 0, 0,
    0, 0, 65, 132, 85, 108, 0, 0, 0, 0, 66, 79, 106, 124, 0, 0, 0, 0, 67, 100, 55, 108, 0, 0, 0,
    0, 68, 47, 76, 124, 0, 0, 0, 0, 69, 68, 25, 108, 0, 0, 0, 0, 69, 152, 135, 64, 1, 3, 2, 3, 2,
    3, 2, 3, 2, 3, 2, 3, 2, 3, 2, 3, 2, 3, 2, 3, 2, 3, 4, 5, 3, 2, 3, 2, 3, 2, 3, 2, 3, 2, 3, 2,
    3, 2, 3, 2, 3, 2, 3, 2, 3, 2, 3, 2, 3, 2, 3, 2, 3, 2, 3, 2, 3, 2, 3, 2, 3, 2, 3, 2, 3, 2, 3,
    2, 3, 2, 3, 2, 3, 2, 3, 2, 3, 2, 3, 2, 3, 2, 3, 2, 3, 2, 3, 2, 3, 2, 3, 2, 3, 2, 3, 2, 3, 2,
    3, 2, 3, 2, 3, 2, 3, 2, 3, 2, 3, 2, 3, 2, 3, 2, 3, 2, 3, 2, 3, 2, 3, 2, 3, 2, 3, 2, 3, 2, 3,
    2, 3, 2, 3, 2, 3, 2, 3, 2, 3, 2, 3, 2, 3, 2, 3, 3, 255, 255, 195, 68, 0, 0, 255, 255, 185,
    176, 0, 4, 255, 255, 213, 208, 1, 8, 255, 255, 199, 192, 0, 12, 255, 255, 213, 208, 1, 16,
    255, 255, 213, 208, 1, 20, 76, 77, 84, 0, 69, 83, 84, 0, 65, 68, 84, 0, 65, 83, 84, 0, 65, 87,
    84, 0, 65, 80, 84, 0, 10, 65, 83, 84, 52, 65, 68, 84, 44, 77, 51, 46, 50, 46, 48, 44, 77, 49,
    49, 46, 49, 46, 48, 10,
];

/// `America/Monterrey`.
#[verifier::opaque]
pub const AMERICA_MONTERREY: [u8; 709] = [
    84, 90, 105, 102, 50, 0, 0, 0, 0, 0, 0, 0, 0, 0, 0, 0, 0, 0, 0, 0, 0, 0, 0, 0, 0, 0, 0, 0, 0,
    0, 0, 0, 0, 0, 0, 0, 0, 0, 0, 1, 0, 0, 0, 1, 0, 0, 0, 0, 0, 0, 0, 84, 90, 105, 102, 50, 0, 0,
    0, 0, 0, 0, 0, 0, 0, 0, 0, 0, 0, 0, 0, 0, 0, 0, 0, 0, 0, 0, 0, 0, 0, 0, 0, 0, 0, 0, 62, 0, 0,
    0, 5, 0, 0, 0, 20, 255, 255, 255, 255, 165, 182, 218, 96, 255, 255, 255, 255, 175, 241, 43,
    112, 255, 255, 255, 255, 182, 102, 86, 96, 255, 255, 255, 255, 183, 65, 61, 112, 255, 255,
    255, 255, 184, 12, 54, 96, 255, 255, 255, 255, 184, 253, 134, 240, 0, 0, 0, 0, 34, 85, 241, 0,
    0, 0, 0, 0, 35, 106, 189, 240, 0, 0, 0, 0, 49, 103, 118, 0, 0, 0, 0, 0, 50, 115, 8, 112, 0, 0,
    0, 0, 51, 71, 88, 0, 0, 0, 0, 0, 52, 82, 234, 112, 0, 0, 0, 0, 53, 39, 58, 0, 0, 0, 0, 0, 54,
    50, 204, 112, 0, 0, 0, 0, 55, 7, 28, 0, 0, 0, 0, 0, 56, 27, 232, 240, 0, 0, 0, 0, 56, 230,
    254, 0, 0, 0, 0, 0, 57, 251, 202, 240, 0, 0, 0, 0, 58, 245, 4, 128, 0, 0, 0, 0, 59, 182, 194,
    240, 0, 0, 0, 0, 60, 175, 252, 128, 0, 0, 0, 0, 61, 187, 142, 240, 0, 0, 0, 0, 62, 143, 222,
    128, 0, 0, 0, 0, 63, 155, 112, 240, 0, 0, 0, 0, 64, 111, 192, 128, 0, 0, 0, 0, 65, 132, 141,
    112, 0, 0, 0, 0, 66, 79, 162, 128, 0, 0, 0, 0, 67, 100, 111, 112, 0, 0, 0, 0, 68, 47, 132,
    128, 0, 0, 0, 0, 69, 68, 81, 112, 0, 0, 0, 0, 70, 15, 102, 128, 0, 0, 0, 0, 71, 36, 51, 112,
    0, 0, 0, 0, 71, 248, 131, 0, 0, 0, 0, 0, 73, 4, 21, 112, 0, 0, 0, 0, 73, 216, 101, 0, 0, 0, 0,
    0, 74, 227, 247, 112, 0, 0, 0, 0, 75, 184, 71, 0, 0, 0, 0, 0, 76, 205, 19, 240, 0, 0, 0, 0,
    77, 152, 41, 0, 0, 0, 0, 0, 78, 172, 245, 240, 0, 0, 0, 0, 79, 120, 11, 0, 0, 0, 0, 0, 80,
    140, 215, 240, 0, 0, 0, 0, 81, 97, 39, 128, 0, 0, 0, 0, 82, 108, 185, 240, 0, 0, 0, 0, 83, 65,
    9, 128, 0, 0, 0, 0, 84, 76, 155, 240, 0, 0, 0, 0, 85, 32, 235, 128, 0, 0, 0, 0, 86, 44, 125,
    240, 0, 0, 0, 0, 87, 0, 205, 128, 0, 0, 0, 0, 88, 21, 154, 112, 0, 0, 0, 0, 88, 224, 175, 128,
    0, 0, 0, 0, 89, 245, 124, 112, 0, 0, 0, 0, 90, 192, 145, 128, 0, 0, 0, 0, 91, 213, 94, 112, 0,
    0, 0, 0, 92, 169, 174, 0, 0, 0, 0, 0, 93, 181, 64, 112, 0, 0, 0, 0, 94, 137, 144, 0, 0, 0, 0,
    0, 95, 149, 34, 112, 0, 0, 0, 0, 96, 105, 114, 0, 0, 0, 0, 0, 97, 126, 62, 240, 0, 0, 0, 0,
    98, 73, 84, 0, 0, 0, 0, 0, 99, 94, 32, 240, 1, 2, 1, 3, 1, 2, 4, 2, 4, 2, 4, 2, 4, 2, 4, 2, 4,
    2, 4, 2, 4, 2, 4, 2, 4, 2, 4, 2, 4, 2, 4, 2, 4, 2, 4, 2, 4, 2, 4, 2, 4, 2, 4, 2, 4, 2, 4, 2,
    4, 2, 4, 2, 4, 2, 4, 2, 4, 2, 4, 2, 4, 2, 255, 255, 161, 244, 0, 0, 255, 255, 157, 144, 0, 4,
    255, 255, 171, 160, 0, 8, 255, 255, 171, 160, 1, 12, 255, 255, 185, 176, 1, 16, 76, 77, 84, 0,
    77, 83, 84, 0, 67, 83, 84, 0, 77, 68, 84, 0, 67, 68, 84, 0, 10, 67, 83, 84, 54, 10,
];

/// `America/Montevideo`.
#[verifier::opaque]
pub const AMERICA_MONTEVIDEO: [u8; 969] = [
    84, 90, 105, 102, 50, 0, 0, 0, 0, 0, 0, 0, 0, 0, 0, 0, 0, 0, 0, 0, 0, 0, 0, 0, 0, 0, 0, 0, 0,
    0, 0, 0, 0, 0, 0, 0, 0, 0, 0, 1, 0, 0, 0, 1, 0, 0, 0, 0, 0, 0, 0, 84, 90, 105, 102, 50, 0, 0,
    0, 0, 0, 0, 0, 0, 0, 0, 0, 0, 0, 0, 0, 0, 0, 0, 0, 0, 0, 0, 0, 0, 0, 0, 0, 0, 0, 0, 86, 0, 0,
    0, 9, 0, 0, 0, 38, 255, 255, 255, 255, 140, 52, 229, 51, 255, 255, 255, 255, 162, 146, 135,
    179, 255, 255, 255, 255, 168, 255, 219, 64, 255, 255, 255, 255, 169, 241, 15, 176, 255, 255,
    255, 255, 170, 226, 89, 56, 255, 255, 255, 255, 171, 210, 67, 48, 255, 255, 255, 255, 172,
    195, 140, 184, 255, 255, 255, 255, 173, 179, 118, 176, 255, 255, 255, 255, 187, 244, 181, 184,
    255, 255, 255, 255, 188, 191, 181, 176, 255, 255, 255, 255, 189, 212, 151, 184, 255, 255, 255,
    255, 190, 159, 151, 176, 255, 255, 255, 255, 191, 180, 121, 184, 255, 255, 255, 255, 192, 127,
    121, 176, 255, 255, 255, 255, 193, 148, 91, 184, 255, 255, 255, 255, 194, 95, 91, 176, 255,
    255, 255, 255, 195, 125, 120, 56, 255, 255, 255, 255, 196, 63, 61, 176, 255, 255, 255, 255,
    197, 93, 90, 56, 255, 255, 255, 255, 198, 31, 31, 176, 255, 255, 255, 255, 199, 24, 82, 56,
    255, 255, 255, 255, 200, 8, 60, 48, 255, 255, 255, 255, 201, 29, 30, 56, 255, 255, 255, 255,
    201, 232, 30, 48, 255, 255, 255, 255, 202, 139, 159, 56, 255, 255, 255, 255, 205, 30, 198, 48,
    255, 255, 255, 255, 205, 149, 102, 40, 255, 255, 255, 255, 236, 11, 133, 176, 255, 255, 255,
    255, 236, 242, 53, 40, 255, 255, 255, 255, 237, 69, 74, 176, 255, 255, 255, 255, 237, 133,
    214, 32, 255, 255, 255, 255, 247, 19, 114, 176, 255, 255, 255, 255, 247, 250, 27, 32, 255,
    255, 255, 255, 252, 254, 62, 48, 255, 255, 255, 255, 253, 246, 17, 40, 0, 0, 0, 0, 0, 150,
    117, 48, 0, 0, 0, 0, 0, 216, 82, 32, 0, 0, 0, 0, 4, 87, 138, 176, 0, 0, 0, 0, 4, 198, 58, 160,
    0, 0, 0, 0, 7, 150, 27, 176, 0, 0, 0, 0, 7, 223, 218, 152, 0, 0, 0, 0, 8, 198, 159, 40, 0, 0,
    0, 0, 9, 90, 78, 48, 0, 0, 0, 0, 9, 219, 115, 32, 0, 0, 0, 0, 13, 26, 18, 48, 0, 0, 0, 0, 13,
    127, 135, 160, 0, 0, 0, 0, 14, 231, 127, 48, 0, 0, 0, 0, 15, 95, 105, 160, 0, 0, 0, 0, 16,
    217, 214, 48, 0, 0, 0, 0, 17, 63, 75, 160, 0, 0, 0, 0, 17, 137, 45, 176, 0, 0, 0, 0, 19, 49,
    162, 160, 0, 0, 0, 0, 33, 195, 84, 48, 0, 0, 0, 0, 34, 39, 120, 32, 0, 0, 0, 0, 35, 161, 228,
    176, 0, 0, 0, 0, 36, 16, 148, 160, 0, 0, 0, 0, 37, 74, 103, 176, 0, 0, 0, 0, 37, 231, 60, 32,
    0, 0, 0, 0, 39, 33, 15, 48, 0, 0, 0, 0, 39, 208, 88, 160, 0, 0, 0, 0, 41, 10, 43, 176, 0, 0,
    0, 0, 41, 176, 58, 160, 0, 0, 0, 0, 42, 224, 211, 48, 0, 0, 0, 0, 43, 144, 28, 160, 0, 0, 0,
    0, 65, 76, 246, 48, 0, 0, 0, 0, 66, 70, 47, 192, 0, 0, 0, 0, 67, 72, 163, 208, 0, 0, 0, 0, 68,
    19, 156, 192, 0, 0, 0, 0, 69, 31, 75, 80, 0, 0, 0, 0, 69, 243, 126, 192, 0, 0, 0, 0, 71, 8,
    103, 208, 0, 0, 0, 0, 71, 211, 96, 192, 0, 0, 0, 0, 72, 232, 73, 208, 0, 0, 0, 0, 73, 179, 66,
    192, 0, 0, 0, 0, 74, 200, 43, 208, 0, 0, 0, 0, 75, 156, 95, 64, 0, 0, 0, 0, 76, 168, 13, 208,
    0, 0, 0, 0, 77, 124, 65, 64, 0, 0, 0, 0, 78, 135, 239, 208, 0, 0, 0, 0, 79, 92, 35, 64, 0, 0,
    0, 0, 80, 113, 12, 80, 0, 0, 0, 0, 81, 60, 5, 64, 0, 0, 0, 0, 82, 80, 238, 80, 0, 0, 0, 0, 83,
    27, 231, 64, 0, 0, 0, 0, 84, 48, 208, 80, 0, 0, 0, 0, 84, 251, 201, 64, 1, 2, 4, 3, 4, 3, 4,
    3, 4, 3, 4, 3, 4, 3, 4, 3, 4, 3, 4, 3, 4, 3, 4, 3, 4, 6, 5, 6, 5, 7, 5, 7, 5, 6, 5, 7, 5, 7,
    5, 8, 6, 5, 7, 5, 7, 5, 7, 5, 7, 5, 7, 5, 7, 5, 7, 5, 7, 5, 7, 5, 7, 5, 7, 5, 7, 5, 7, 5, 7,
    5, 7, 5, 7, 5, 7, 5, 7, 5, 7, 5, 7, 5, 7, 5, 7, 5, 255, 255, 203, 77, 0, 0, 255, 255, 203, 77,
    0, 4, 255, 255, 199, 192, 0, 8, 255, 255, 206, 200, 0, 12, 255, 255, 213, 208, 1, 18, 255,
    255, 213, 208, 0, 18, 255, 255, 220, 216, 1, 22, 255, 255, 227, 224, 1, 28, 255, 255, 234,
    232, 1, 32, 76, 77, 84, 0, 77, 77, 84, 0, 45, 48, 52, 0, 45, 48, 51, 51, 48, 0, 45, 48, 51, 0,
    45, 48, 50, 51, 48, 0, 45, 48, 50, 0, 45, 48, 49, 51, 48, 0, 10, 60, 45, 48, 51, 62, 51, 10,
];

/// `America/New_York`.
#[verifier::opaque]
pub const AMERICA_NEW_YORK: [u8; 1744] = [
    84, 90, 105, 102, 50, 0, 0, 0, 0, 0, 0, 0, 0, 0, 0, 0, 0, 0, 0, 0, 0, 0, 0, 0, 0, 0, 0, 0, 0,
    0, 0, 0, 0, 0, 0, 0, 0, 0, 0, 1, 0, 0, 0, 1, 0, 0, 0, 0, 0, 0, 0, 84, 90, 105, 102, 50, 0, 0,
    0, 0, 0, 0, 0, 0, 0, 0, 0, 0, 0, 0, 0, 0, 0, 0, 0, 0, 0, 0, 0, 0, 0, 0, 0, 0, 0, 0, 175, 0, 0,
    0, 5, 0, 0, 0, 20, 255, 255, 255, 255, 94, 3, 240, 144, 255, 255, 255, 255, 158, 166, 30, 112,
    255, 255, 255, 255, 159, 186, 235, 96, 255, 255, 255, 255, 160, 134, 0, 112, 255, 255, 255,
    255, 161, 154, 205, 96, 255, 255, 255, 255, 162, 101, 226, 112, 255, 255, 255, 255, 163, 131,
    233, 224, 255, 255, 255, 255, 164, 106, 174, 112, 255, 255, 255, 255, 165, 53, 167, 96, 255,
    255, 255, 255, 166, 83, 202, 240, 255, 255, 255, 255, 167, 21, 137, 96, 255, 255, 255, 255,
    168, 51, 172, 240, 255, 255, 255, 255, 168, 254, 165, 224, 255, 255, 255, 255, 170, 19, 142,
    240, 255, 255, 255, 255, 170, 222, 135, 224, 255, 255, 255, 255, 171, 243, 112, 240, 255, 255,
    255, 255, 172, 190, 105, 224, 255, 255, 255, 255, 173, 211, 82, 240, 255, 255, 255, 255, 174,
    158, 75, 224, 255, 255, 255, 255, 175, 179, 52, 240, 255, 255, 255, 255, 176, 126, 45, 224,
    255, 255, 255, 255, 177, 156, 81, 112, 255, 255, 255, 255, 178, 103, 74, 96, 255, 255, 255,
    255, 179, 124, 51, 112, 255, 255, 255, 255, 180, 71, 44, 96, 255, 255, 255, 255, 181, 92, 21,
    112, 255, 255, 255, 255, 182, 39, 14, 96, 255, 255, 255, 255, 183, 59, 247, 112, 255, 255,
    255, 255, 184, 6, 240, 96, 255, 255, 255, 255, 185, 27, 217, 112, 255, 255, 255, 255, 185,
    230, 210, 96, 255, 255, 255, 255, 187, 4, 245, 240, 255, 255, 255, 255, 187, 198, 180, 96,
    255, 255, 255, 255, 188, 228, 215, 240, 255, 255, 255, 255, 189, 175, 208, 224, 255, 255, 255,
    255, 190, 196, 185, 240, 255, 255, 255, 255, 191, 143, 178, 224, 255, 255, 255, 255, 192, 164,
    155, 240, 255, 255, 255, 255, 193, 111, 148, 224, 255, 255, 255, 255, 194, 132, 125, 240, 255,
    255, 255, 255, 195, 79, 118, 224, 255, 255, 255, 255, 196, 100, 95, 240, 255, 255, 255, 255,
    197, 47, 88, 224, 255, 255, 255, 255, 198, 77, 124, 112, 255, 255, 255, 255, 199, 15, 58, 224,
    255, 255, 255, 255, 200, 45, 94, 112, 255, 255, 255, 255, 200, 248, 87, 96, 255, 255, 255,
    255, 202, 13, 64, 112, 255, 255, 255, 255, 202, 216, 57, 96, 255, 255, 255, 255, 203, 136,
    240, 112, 255, 255, 255, 255, 210, 35, 244, 112, 255, 255, 255, 255, 210, 96, 251, 224, 255,
    255, 255, 255, 211, 117, 228, 240, 255, 255, 255, 255, 212, 64, 221, 224, 255, 255, 255, 255,
    213, 85, 198, 240, 255, 255, 255, 255, 214, 32, 191, 224, 255, 255, 255, 255, 215, 53, 168,
    240, 255, 255, 255, 255, 216, 0, 161, 224, 255, 255, 255, 255, 217, 21, 138, 240, 255, 255,
    255, 255, 217, 224, 131, 224, 255, 255, 255, 255, 218, 254, 167, 112, 255, 255, 255, 255, 219,
    192, 101, 224, 255, 255, 255, 255, 220, 222, 137, 112, 255, 255, 255, 255, 221, 169, 130, 96,
    255, 255, 255, 255, 222, 190, 107, 112, 255, 255, 255, 255, 223, 137, 100, 96, 255, 255, 255,
    255, 224, 158, 77, 112, 255, 255, 255, 255, 225, 105, 70, 96, 255, 255, 255, 255, 226, 126,
    47, 112, 255, 255, 255, 255, 227, 73, 40, 96, 255, 255, 255, 255, 228, 94, 17, 112, 255, 255,
    255, 255, 229, 87, 46, 224, 255, 255, 255, 255, 230, 71, 45, 240, 255, 255, 255, 255, 231, 55,
    16, 224, 255, 255, 255, 255, 232, 39, 15, 240, 255, 255, 255, 255, 233, 22, 242, 224, 255,
    255, 255, 255, 234, 6, 241, 240, 255, 255, 255, 255, 234, 246, 212, 224, 255, 255, 255, 255,
    235, 230, 211, 240, 255, 255, 255, 255, 236, 214, 182, 224, 255, 255, 255, 255, 237, 198, 181,
    240, 255, 255, 255, 255, 238, 191, 211, 96, 255, 255, 255, 255, 239, 175, 210, 112, 255, 255,
    255, 255, 240, 159, 181, 96, 255, 255, 255, 255, 241, 143, 180, 112, 255, 255, 255, 255, 242,
    127, 151, 96, 255, 255, 255, 255, 243, 111, 150, 112, 255, 255, 255, 255, 244, 95, 121, 96,
    255, 255, 255, 255, 245, 79, 120, 112, 255, 255, 255, 255, 246, 63, 91, 96, 255, 255, 255,
    255, 247, 47, 90, 112, 255, 255, 255, 255, 248, 40, 119, 224, 255, 255, 255, 255, 249, 15, 60,
    112, 255, 255, 255, 255, 250, 8, 89, 224, 255, 255, 255, 255, 250, 248, 88, 240, 255, 255,
    255, 255, 251, 232, 59, 224, 255, 255, 255, 255, 252, 216, 58, 240, 255, 255, 255, 255, 253,
    200, 29, 224, 255, 255, 255, 255, 254, 184, 28, 240, 255, 255, 255, 255, 255, 167, 255, 224,
    0, 0, 0, 0, 0, 151, 254, 240, 0, 0, 0, 0, 1, 135, 225, 224, 0, 0, 0, 0, 2, 119, 224, 240, 0,
    0, 0, 0, 3, 112, 254, 96, 0, 0, 0, 0, 4, 96, 253, 112, 0, 0, 0, 0, 5, 80, 224, 96, 0, 0, 0, 0,
    6, 64, 223, 112, 0, 0, 0, 0, 7, 48, 194, 96, 0, 0, 0, 0, 7, 141, 25, 112, 0, 0, 0, 0, 9, 16,
    164, 96, 0, 0, 0, 0, 9, 173, 148, 240, 0, 0, 0, 0, 10, 240, 134, 96, 0, 0, 0, 0, 11, 224, 133,
    112, 0, 0, 0, 0, 12, 217, 162, 224, 0, 0, 0, 0, 13, 192, 103, 112, 0, 0, 0, 0, 14, 185, 132,
    224, 0, 0, 0, 0, 15, 169, 131, 240, 0, 0, 0, 0, 16, 153, 102, 224, 0, 0, 0, 0, 17, 137, 101,
    240, 0, 0, 0, 0, 18, 121, 72, 224, 0, 0, 0, 0, 19, 105, 71, 240, 0, 0, 0, 0, 20, 89, 42, 224,
    0, 0, 0, 0, 21, 73, 41, 240, 0, 0, 0, 0, 22, 57, 12, 224, 0, 0, 0, 0, 23, 41, 11, 240, 0, 0,
    0, 0, 24, 34, 41, 96, 0, 0, 0, 0, 25, 8, 237, 240, 0, 0, 0, 0, 26, 2, 11, 96, 0, 0, 0, 0, 26,
    242, 10, 112, 0, 0, 0, 0, 27, 225, 237, 96, 0, 0, 0, 0, 28, 209, 236, 112, 0, 0, 0, 0, 29,
    193, 207, 96, 0, 0, 0, 0, 30, 177, 206, 112, 0, 0, 0, 0, 31, 161, 177, 96, 0, 0, 0, 0, 32,
    118, 0, 240, 0, 0, 0, 0, 33, 129, 147, 96, 0, 0, 0, 0, 34, 85, 226, 240, 0, 0, 0, 0, 35, 106,
    175, 224, 0, 0, 0, 0, 36, 53, 196, 240, 0, 0, 0, 0, 37, 74, 145, 224, 0, 0, 0, 0, 38, 21, 166,
    240, 0, 0, 0, 0, 39, 42, 115, 224, 0, 0, 0, 0, 39, 254, 195, 112, 0, 0, 0, 0, 41, 10, 85, 224,
    0, 0, 0, 0, 41, 222, 165, 112, 0, 0, 0, 0, 42, 234, 55, 224, 0, 0, 0, 0, 43, 190, 135, 112, 0,
    0, 0, 0, 44, 211, 84, 96, 0, 0, 0, 0, 45, 158, 105, 112, 0, 0, 0, 0, 46, 179, 54, 96, 0, 0, 0,
    0, 47, 126, 75, 112, 0, 0, 0, 0, 48, 147, 24, 96, 0, 0, 0, 0, 49, 103, 103, 240, 0, 0, 0, 0,
    50, 114, 250, 96, 0, 0, 0, 0, 51, 71, 73, 240, 0, 0, 0, 0, 52, 82, 220, 96, 0, 0, 0, 0, 53,
    39, 43, 240, 0, 0, 0, 0, 54, 50, 190, 96, 0, 0, 0, 0, 55, 7, 13, 240, 0, 0, 0, 0, 56, 27, 218,
    224, 0, 0, 0, 0, 56, 230, 239, 240, 0, 0, 0, 0, 57, 251, 188, 224, 0, 0, 0, 0, 58, 198, 209,
    240, 0, 0, 0, 0, 59, 219, 158, 224, 0, 0, 0, 0, 60, 175, 238, 112, 0, 0, 0, 0, 61, 187, 128,
    224, 0, 0, 0, 0, 62, 143, 208, 112, 0, 0, 0, 0, 63, 155, 98, 224, 0, 0, 0, 0, 64, 111, 178,
    112, 0, 0, 0, 0, 65, 132, 127, 96, 0, 0, 0, 0, 66, 79, 148, 112, 0, 0, 0, 0, 67, 100, 97, 96,
    0, 0, 0, 0, 68, 47, 118, 112, 0, 0, 0, 0, 69, 68, 67, 96, 0, 0, 0, 0, 69, 243, 168, 240, 2, 1,
    2, 1, 2, 1, 2, 1, 2, 1, 2, 1, 2, 1, 2, 1, 2, 1, 2, 1, 2, 1, 2, 1, 2, 1, 2, 1, 2, 1, 2, 1, 2,
    1, 2, 1, 2, 1, 2, 1, 2, 1, 2, 1, 2, 1, 2, 1, 2, 3, 4, 2, 1, 2, 1, 2, 1, 2, 1, 2, 1, 2, 1, 2,
    1, 2, 1, 2, 1, 2, 1, 2, 1, 2, 1, 2, 1, 2, 1, 2, 1, 2, 1, 2, 1, 2, 1, 2, 1, 2, 1, 2, 1, 2, 1,
    2, 1, 2, 1, 2, 1, 2, 1, 2, 1, 2, 1, 2, 1, 2, 1, 2, 1, 2, 1, 2, 1, 2, 1, 2, 1, 2, 1, 2, 1, 2,
    1, 2, 1, 2, 1, 2, 1, 2, 1, 2, 1, 2, 1, 2, 1, 2, 1, 2, 1, 2, 1, 2, 1, 2, 1, 2, 1, 2, 1, 2, 1,
    2, 1, 2, 1, 2, 1, 2, 1, 2, 1, 2, 1, 2, 1, 2, 1, 2, 1, 255, 255, 186, 158, 0, 0, 255, 255, 199,
    192, 1, 4, 255, 255, 185, 176, 0, 8, 255, 255, 199, 192, 1, 12, 255, 255, 199, 192, 1, 16, 76,
    77, 84, 0, 69, 68, 84, 0, 69, 83, 84, 0, 69, 87, 84, 0, 69, 80, 84, 0, 10, 69, 83, 84, 53, 69,
    68, 84, 44, 77, 51, 46, 50, 46, 48, 44, 77, 49, 49, 46, 49, 46, 48, 10,
];

/// `America/Nome`.
#[verifier::opaque]
pub const AMERICA_NOME: [u8; 975] = [
    84, 90, 105, 102, 50, 0, 0, 0, 0, 0, 0, 0, 0, 0, 0, 0, 0, 0, 0, 0, 0, 0, 0, 0, 0, 0, 0, 0, 0,
    0, 0, 0, 0, 0, 0, 0, 0, 0, 0, 1, 0, 0, 0, 1, 0, 0, 0, 0, 0, 0, 0, 84, 90, 105, 102, 50, 0, 0,
    0, 0, 0, 0, 0, 0, 0, 0, 0, 0, 0, 0, 0, 0, 0, 0, 0, 0, 0, 0, 0, 0, 0, 0, 0, 0, 0, 0, 84, 0, 0,
    0, 10, 0, 0, 0, 38, 255, 255, 255, 255, 63, 194, 253, 209, 255, 255, 255, 255, 125, 135, 79,
    210, 255, 255, 255, 255, 203, 137, 68, 208, 255, 255, 255, 255, 210, 35, 244, 112, 255, 255,
    255, 255, 210, 97, 80, 64, 255, 255, 255, 255, 250, 210, 85, 176, 255, 255, 255, 255, 254,
    184, 113, 80, 255, 255, 255, 255, 255, 168, 84, 64, 0, 0, 0, 0, 0, 152, 83, 80, 0, 0, 0, 0, 1,
    136, 54, 64, 0, 0, 0, 0, 2, 120, 53, 80, 0, 0, 0, 0, 3, 113, 82, 192, 0, 0, 0, 0, 4, 97, 81,
    208, 0, 0, 0, 0, 5, 81, 52, 192, 0, 0, 0, 0, 6, 65, 51, 208, 0, 0, 0, 0, 7, 49, 22, 192, 0, 0,
    0, 0, 7, 141, 109, 208, 0, 0, 0, 0, 9, 16, 248, 192, 0, 0, 0, 0, 9, 173, 233, 80, 0, 0, 0, 0,
    10, 240, 218, 192, 0, 0, 0, 0, 11, 224, 217, 208, 0, 0, 0, 0, 12, 217, 247, 64, 0, 0, 0, 0,
    13, 192, 187, 208, 0, 0, 0, 0, 14, 185, 217, 64, 0, 0, 0, 0, 15, 169, 216, 80, 0, 0, 0, 0, 16,
    153, 187, 64, 0, 0, 0, 0, 17, 137, 186, 80, 0, 0, 0, 0, 18, 121, 157, 64, 0, 0, 0, 0, 19, 105,
    156, 80, 0, 0, 0, 0, 20, 89, 127, 64, 0, 0, 0, 0, 21, 73, 126, 80, 0, 0, 0, 0, 22, 57, 97, 64,
    0, 0, 0, 0, 23, 41, 96, 80, 0, 0, 0, 0, 24, 34, 125, 192, 0, 0, 0, 0, 25, 9, 66, 80, 0, 0, 0,
    0, 26, 2, 95, 192, 0, 0, 0, 0, 26, 43, 20, 16, 0, 0, 0, 0, 26, 242, 66, 176, 0, 0, 0, 0, 27,
    226, 37, 160, 0, 0, 0, 0, 28, 210, 36, 176, 0, 0, 0, 0, 29, 194, 7, 160, 0, 0, 0, 0, 30, 178,
    6, 176, 0, 0, 0, 0, 31, 161, 233, 160, 0, 0, 0, 0, 32, 118, 57, 48, 0, 0, 0, 0, 33, 129, 203,
    160, 0, 0, 0, 0, 34, 86, 27, 48, 0, 0, 0, 0, 35, 106, 232, 32, 0, 0, 0, 0, 36, 53, 253, 48, 0,
    0, 0, 0, 37, 74, 202, 32, 0, 0, 0, 0, 38, 21, 223, 48, 0, 0, 0, 0, 39, 42, 172, 32, 0, 0, 0,
    0, 39, 254, 251, 176, 0, 0, 0, 0, 41, 10, 142, 32, 0, 0, 0, 0, 41, 222, 221, 176, 0, 0, 0, 0,
    42, 234, 112, 32, 0, 0, 0, 0, 43, 190, 191, 176, 0, 0, 0, 0, 44, 211, 140, 160, 0, 0, 0, 0,
    45, 158, 161, 176, 0, 0, 0, 0, 46, 179, 110, 160, 0, 0, 0, 0, 47, 126, 131, 176, 0, 0, 0, 0,
    48, 147, 80, 160, 0, 0, 0, 0, 49, 103, 160, 48, 0, 0, 0, 0, 50, 115, 50, 160, 0, 0, 0, 0, 51,
    71, 130, 48, 0, 0, 0, 0, 52, 83, 20, 160, 0, 0, 0, 0, 53, 39, 100, 48, 0, 0, 0, 0, 54, 50,
    246, 160, 0, 0, 0, 0, 55, 7, 70, 48, 0, 0, 0, 0, 56, 28, 19, 32, 0, 0, 0, 0, 56, 231, 40, 48,
    0, 0, 0, 0, 57, 251, 245, 32, 0, 0, 0, 0, 58, 199, 10, 48, 0, 0, 0, 0, 59, 219, 215, 32, 0, 0,
    0, 0, 60, 176, 38, 176, 0, 0, 0, 0, 61, 187, 185, 32, 0, 0, 0, 0, 62, 144, 8, 176, 0, 0, 0, 0,
    63, 155, 155, 32, 0, 0, 0, 0, 64, 111, 234, 176, 0, 0, 0, 0, 65, 132, 183, 160, 0, 0, 0, 0,
    66, 79, 204, 176, 0, 0, 0, 0, 67, 100, 153, 160, 0, 0, 0, 0, 68, 47, 174, 176, 0, 0, 0, 0, 69,
    68, 123, 160, 0, 0, 0, 0, 69, 243, 225, 48, 1, 2, 3, 4, 2, 5, 6, 5, 6, 5, 6, 5, 6, 5, 6, 5, 6,
    5, 6, 5, 6, 5, 6, 5, 6, 5, 6, 5, 6, 5, 6, 5, 6, 5, 6, 7, 9, 8, 9, 8, 9, 8, 9, 8, 9, 8, 9, 8,
    9, 8, 9, 8, 9, 8, 9, 8, 9, 8, 9, 8, 9, 8, 9, 8, 9, 8, 9, 8, 9, 8, 9, 8, 9, 8, 9, 8, 9, 8, 9,
    8, 9, 8, 9, 8, 0, 0, 182, 110, 0, 0, 255, 255, 100, 238, 0, 0, 255, 255, 101, 80, 0, 4, 255,
    255, 115, 96, 1, 8, 255, 255, 115, 96, 1, 12, 255, 255, 101, 80, 0, 16, 255, 255, 115, 96, 1,
    20, 255, 255, 129, 112, 0, 24, 255, 255, 143, 128, 1, 28, 255, 255, 129, 112, 0, 33, 76, 77,
    84, 0, 78, 83, 84, 0, 78, 87, 84, 0, 78, 80, 84, 0, 66, 83, 84, 0, 66, 68, 84, 0, 89, 83, 84,
    0, 65, 75, 68, 84, 0, 65, 75, 83, 84, 0, 10, 65, 75, 83, 84, 57, 65, 75, 68, 84, 44, 77, 51,
    46, 50, 46, 48, 44, 77, 49, 49, 46, 49, 46, 48, 10,
];

/// `America/Noronha`.
#[verifier::opaque]
pub const AMERICA_NORONHA: [u8; 484] = [
    84, 90, 105, 102, 50, 0, 0, 0, 0, 0, 0, 0, 0, 0, 0, 0, 0, 0, 0, 0, 0, 0, 0, 0, 0, 0, 0, 0, 0,
    0, 0, 0, 0, 0, 0, 0, 0, 0, 0, 1, 0, 0, 0, 1, 0, 0, 0, 0, 0, 0, 0, 84, 90, 105, 102, 50, 0, 0,
    0, 0, 0, 0, 0, 0, 0, 0, 0, 0, 0, 0, 0, 0, 0, 0, 0, 0, 0, 0, 0, 0, 0, 0, 0, 0, 0, 0, 39, 0, 0,
    0, 3, 0, 0, 0, 12, 255, 255, 255, 255, 150, 170, 101, 100, 255, 255, 255, 255, 184, 15, 59,
    208, 255, 255, 255, 255, 184, 253, 50, 144, 255, 255, 255, 255, 185, 241, 38, 32, 255, 255,
    255, 255, 186, 222, 102, 16, 255, 255, 255, 255, 218, 56, 160, 32, 255, 255, 255, 255, 218,
    235, 236, 32, 255, 255, 255, 255, 220, 25, 211, 160, 255, 255, 255, 255, 220, 185, 75, 16,
    255, 255, 255, 255, 221, 251, 7, 32, 255, 255, 255, 255, 222, 155, 208, 16, 255, 255, 255,
    255, 223, 221, 140, 32, 255, 255, 255, 255, 224, 84, 37, 16, 255, 255, 255, 255, 244, 151,
    241, 160, 255, 255, 255, 255, 245, 5, 80, 16, 255, 255, 255, 255, 246, 192, 86, 32, 255, 255,
    255, 255, 247, 14, 16, 144, 255, 255, 255, 255, 248, 81, 30, 32, 255, 255, 255, 255, 248, 199,
    183, 16, 255, 255, 255, 255, 250, 10, 196, 160, 255, 255, 255, 255, 250, 168, 234, 144, 255,
    255, 255, 255, 251, 235, 248, 32, 255, 255, 255, 255, 252, 139, 111, 144, 0, 0, 0, 0, 29, 201,
    128, 32, 0, 0, 0, 0, 30, 120, 201, 144, 0, 0, 0, 0, 31, 160, 39, 160, 0, 0, 0, 0, 32, 51, 193,
    144, 0, 0, 0, 0, 33, 129, 91, 32, 0, 0, 0, 0, 34, 11, 186, 144, 0, 0, 0, 0, 35, 88, 2, 160, 0,
    0, 0, 0, 35, 226, 98, 16, 0, 0, 0, 0, 37, 55, 228, 160, 0, 0, 0, 0, 37, 212, 185, 16, 0, 0, 0,
    0, 55, 246, 184, 160, 0, 0, 0, 0, 56, 184, 119, 16, 0, 0, 0, 0, 57, 223, 213, 32, 0, 0, 0, 0,
    57, 233, 1, 144, 0, 0, 0, 0, 59, 200, 241, 160, 0, 0, 0, 0, 60, 111, 0, 144, 2, 1, 2, 1, 2, 1,
    2, 1, 2, 1, 2, 1, 2, 1, 2, 1, 2, 1, 2, 1, 2, 1, 2, 1, 2, 1, 2, 1, 2, 1, 2, 1, 2, 1, 2, 1, 2,
    1, 2, 255, 255, 225, 156, 0, 0, 255, 255, 241, 240, 1, 4, 255, 255, 227, 224, 0, 8, 76, 77,
    84, 0, 45, 48, 49, 0, 45, 48, 50, 0, 10, 60, 45, 48, 50, 62, 50, 10,
];

/// `America/North_Dakota/Beulah`.
#[verifier::opaque]
pub const AMERICA_NORTH_DAKOTA_BEULAH: [u8; 1043] = [
    84, 90, 105, 102, 50, 0, 0, 0, 0, 0, 0, 0, 0, 0, 0, 0, 0, 0, 0, 0, 0, 0, 0, 0, 0, 0, 0, 0, 0,
    0, 0, 0, 0, 0, 0, 0, 0, 0, 0, 1, 0, 0, 0, 1, 0, 0, 0, 0, 0, 0, 0, 84, 90, 105, 102, 50, 0, 0,
    0, 0, 0, 0, 0, 0, 0, 0, 0, 0, 0, 0, 0, 0, 0, 0, 0, 0, 0, 0, 0, 0, 0, 0, 0, 0, 0, 0, 96, 0, 0,
    0, 6, 0, 0, 0, 24, 255, 255, 255, 255, 94, 4, 12, 176, 255, 255, 255, 255, 158, 166, 58, 144,
    255, 255, 255, 255, 159, 187, 7, 128, 255, 255, 255, 255, 160, 134, 28, 144, 255, 255, 255,
    255, 161, 154, 233, 128, 255, 255, 255, 255, 203, 137, 12, 144, 255, 255, 255, 255, 210, 35,
    244, 112, 255, 255, 255, 255, 210, 97, 24, 0, 255, 255, 255, 255, 250, 248, 117, 16, 255, 255,
    255, 255, 251, 232, 88, 0, 255, 255, 255, 255, 252, 216, 87, 16, 255, 255, 255, 255, 253, 200,
    58, 0, 255, 255, 255, 255, 254, 184, 57, 16, 255, 255, 255, 255, 255, 168, 28, 0, 0, 0, 0, 0,
    0, 152, 27, 16, 0, 0, 0, 0, 1, 135, 254, 0, 0, 0, 0, 0, 2, 119, 253, 16, 0, 0, 0, 0, 3, 113,
    26, 128, 0, 0, 0, 0, 4, 97, 25, 144, 0, 0, 0, 0, 5, 80, 252, 128, 0, 0, 0, 0, 6, 64, 251, 144,
    0, 0, 0, 0, 7, 48, 222, 128, 0, 0, 0, 0, 7, 141, 53, 144, 0, 0, 0, 0, 9, 16, 192, 128, 0, 0,
    0, 0, 9, 173, 177, 16, 0, 0, 0, 0, 10, 240, 162, 128, 0, 0, 0, 0, 11, 224, 161, 144, 0, 0, 0,
    0, 12, 217, 191, 0, 0, 0, 0, 0, 13, 192, 131, 144, 0, 0, 0, 0, 14, 185, 161, 0, 0, 0, 0, 0,
    15, 169, 160, 16, 0, 0, 0, 0, 16, 153, 131, 0, 0, 0, 0, 0, 17, 137, 130, 16, 0, 0, 0, 0, 18,
    121, 101, 0, 0, 0, 0, 0, 19, 105, 100, 16, 0, 0, 0, 0, 20, 89, 71, 0, 0, 0, 0, 0, 21, 73, 70,
    16, 0, 0, 0, 0, 22, 57, 41, 0, 0, 0, 0, 0, 23, 41, 40, 16, 0, 0, 0, 0, 24, 34, 69, 128, 0, 0,
    0, 0, 25, 9, 10, 16, 0, 0, 0, 0, 26, 2, 39, 128, 0, 0, 0, 0, 26, 242, 38, 144, 0, 0, 0, 0, 27,
    226, 9, 128, 0, 0, 0, 0, 28, 210, 8, 144, 0, 0, 0, 0, 29, 193, 235, 128, 0, 0, 0, 0, 30, 177,
    234, 144, 0, 0, 0, 0, 31, 161, 205, 128, 0, 0, 0, 0, 32, 118, 29, 16, 0, 0, 0, 0, 33, 129,
    175, 128, 0, 0, 0, 0, 34, 85, 255, 16, 0, 0, 0, 0, 35, 106, 204, 0, 0, 0, 0, 0, 36, 53, 225,
    16, 0, 0, 0, 0, 37, 74, 174, 0, 0, 0, 0, 0, 38, 21, 195, 16, 0, 0, 0, 0, 39, 42, 144, 0, 0, 0,
    0, 0, 39, 254, 223, 144, 0, 0, 0, 0, 41, 10, 114, 0, 0, 0, 0, 0, 41, 222, 193, 144, 0, 0, 0,
    0, 42, 234, 84, 0, 0, 0, 0, 0, 43, 190, 163, 144, 0, 0, 0, 0, 44, 211, 112, 128, 0, 0, 0, 0,
    45, 158, 133, 144, 0, 0, 0, 0, 46, 179, 82, 128, 0, 0, 0, 0, 47, 126, 103, 144, 0, 0, 0, 0,
    48, 147, 52, 128, 0, 0, 0, 0, 49, 103, 132, 16, 0, 0, 0, 0, 50, 115, 22, 128, 0, 0, 0, 0, 51,
    71, 102, 16, 0, 0, 0, 0, 52, 82, 248, 128, 0, 0, 0, 0, 53, 39, 72, 16, 0, 0, 0, 0, 54, 50,
    218, 128, 0, 0, 0, 0, 55, 7, 42, 16, 0, 0, 0, 0, 56, 27, 247, 0, 0, 0, 0, 0, 56, 231, 12, 16,
    0, 0, 0, 0, 57, 251, 217, 0, 0, 0, 0, 0, 58, 198, 238, 16, 0, 0, 0, 0, 59, 219, 187, 0, 0, 0,
    0, 0, 60, 176, 10, 144, 0, 0, 0, 0, 61, 187, 157, 0, 0, 0, 0, 0, 62, 143, 236, 144, 0, 0, 0,
    0, 63, 155, 127, 0, 0, 0, 0, 0, 64, 111, 206, 144, 0, 0, 0, 0, 65, 132, 155, 128, 0, 0, 0, 0,
    66, 79, 176, 144, 0, 0, 0, 0, 67, 100, 125, 128, 0, 0, 0, 0, 68, 47, 146, 144, 0, 0, 0, 0, 69,
    68, 95, 128, 0, 0, 0, 0, 69, 243, 197, 16, 0, 0, 0, 0, 71, 45, 124, 0, 0, 0, 0, 0, 71, 211,
    167, 16, 0, 0, 0, 0, 73, 13, 94, 0, 0, 0, 0, 0, 73, 179, 137, 16, 0, 0, 0, 0, 74, 237, 64, 0,
    0, 0, 0, 0, 75, 156, 165, 144, 0, 0, 0, 0, 76, 214, 92, 128, 2, 1, 2, 1, 2, 3, 4, 2, 1, 2, 1,
    2, 1, 2, 1, 2, 1, 2, 1, 2, 1, 2, 1, 2, 1, 2, 1, 2, 1, 2, 1, 2, 1, 2, 1, 2, 1, 2, 1, 2, 1, 2,
    1, 2, 1, 2, 1, 2, 1, 2, 1, 2, 1, 2, 1, 2, 1, 2, 1, 2, 1, 2, 1, 2, 1, 2, 1, 2, 1, 2, 1, 2, 1,
    2, 1, 2, 1, 2, 1, 2, 1, 2, 1, 2, 1, 2, 1, 2, 1, 2, 1, 2, 1, 2, 1, 5, 255, 255, 160, 149, 0, 0,
    255, 255, 171, 160, 1, 4, 255, 255, 157, 144, 0, 8, 255, 255, 171, 160, 1, 12, 255, 255, 171,
    160, 1, 16, 255, 255, 171, 160, 0, 20, 76, 77, 84, 0, 77, 68, 84, 0, 77, 83, 84, 0, 77, 87,
    84, 0, 77, 80, 84, 0, 67, 83, 84, 0, 10, 67, 83, 84, 54, 67, 68, 84, 44, 77, 51, 46, 50, 46,
    48, 44, 77, 49, 49, 46, 49, 46, 48, 10,
];

/// `America/North_Dakota/Center`.
#[verifier::opaque]
pub const AMERICA_NORTH_DAKOTA_CENTER: [u8; 990] = [
    84, 90, 105, 102, 50, 0, 0, 0, 0, 0, 0, 0, 0, 0, 0, 0, 0, 0, 0, 0, 0, 0, 0, 0, 0, 0, 0, 0, 0,
    0, 0, 0, 0, 0, 0, 0, 0, 0, 0, 1, 0, 0, 0, 1, 0, 0, 0, 0, 0, 0, 0, 84, 90, 105, 102, 50, 0, 0,
    0, 0, 0, 0, 0, 0, 0, 0, 0, 0, 0, 0, 0, 0, 0, 0, 0, 0, 0, 0, 0, 0, 0, 0, 0, 0, 0, 0, 89, 0, 0,
    0, 7, 0, 0, 0, 28, 255, 255, 255, 255, 94, 4, 12, 176, 255, 255, 255, 255, 158, 166, 58, 144,
    255, 255, 255, 255, 159, 187, 7, 128, 255, 255, 255, 255, 160, 134, 28, 144, 255, 255, 255,
    255, 161, 154, 233, 128, 255, 255, 255, 255, 203, 137, 12, 144, 255, 255, 255, 255, 210, 35,
    244, 112, 255, 255, 255, 255, 210, 97, 24, 0, 255, 255, 255, 255, 250, 248, 117, 16, 255, 255,
    255, 255, 251, 232, 88, 0, 255, 255, 255, 255, 252, 216, 87, 16, 255, 255, 255, 255, 253, 200,
    58, 0, 255, 255, 255, 255, 254, 184, 57, 16, 255, 255, 255, 255, 255, 168, 28, 0, 0, 0, 0, 0,
    0, 152, 27, 16, 0, 0, 0, 0, 1, 135, 254, 0, 0, 0, 0, 0, 2, 119, 253, 16, 0, 0, 0, 0, 3, 113,
    26, 128, 0, 0, 0, 0, 4, 97, 25, 144, 0, 0, 0, 0, 5, 80, 252, 128, 0, 0, 0, 0, 6, 64, 251, 144,
    0, 0, 0, 0, 7, 48, 222, 128, 0, 0, 0, 0, 7, 141, 53, 144, 0, 0, 0, 0, 9, 16, 192, 128, 0, 0,
    0, 0, 9, 173, 177, 16, 0, 0, 0, 0, 10, 240, 162, 128, 0, 0, 0, 0, 11, 224, 161, 144, 0, 0, 0,
    0, 12, 217, 191, 0, 0, 0, 0, 0, 13, 192, 131, 144, 0, 0, 0, 0, 14, 185, 161, 0, 0, 0, 0, 0,
    15, 169, 160, 16, 0, 0, 0, 0, 16, 153, 131, 0, 0, 0, 0, 0, 17, 137, 130, 16, 0, 0, 0, 0, 18,
    121, 101, 0, 0, 0, 0, 0, 19, 105, 100, 16, 0, 0, 0, 0, 20, 89, 71, 0, 0, 0, 0, 0, 21, 73, 70,
    16, 0, 0, 0, 0, 22, 57, 41, 0, 0, 0, 0, 0, 23, 41, 40, 16, 0, 0, 0, 0, 24, 34, 69, 128, 0, 0,
    0, 0, 25, 9, 10, 16, 0, 0, 0, 0, 26, 2, 39, 128, 0, 0, 0, 0, 26, 242, 38, 144, 0, 0, 0, 0, 27,
    226, 9, 128, 0, 0, 0, 0, 28, 210, 8, 144, 0, 0, 0, 0, 29, 193, 235, 128, 0, 0, 0, 0, 30, 177,
    234, 144, 0, 0, 0, 0, 31, 161, 205, 128, 0, 0, 0, 0, 32, 118, 29, 16, 0, 0, 0, 0, 33, 129,
    175, 128, 0, 0, 0, 0, 34, 85, 255, 16, 0, 0, 0, 0, 35, 106, 204, 0, 0, 0, 0, 0, 36, 53, 225,
    16, 0, 0, 0, 0, 37, 74, 174, 0, 0, 0, 0, 0, 38, 21, 195, 16, 0, 0, 0, 0, 39, 42, 144, 0, 0, 0,
    0, 0, 39, 254, 223, 144, 0, 0, 0, 0, 41, 10, 114, 0, 0, 0, 0, 0, 41, 222, 193, 144, 0, 0, 0,
    0, 42, 234, 84, 0, 0, 0, 0, 0, 43, 190, 149, 128, 0, 0, 0, 0, 44, 211, 98, 112, 0, 0, 0, 0,
    45, 158, 119, 128, 0, 0, 0, 0, 46, 179, 68, 112, 0, 0, 0, 0, 47, 126, 89, 128, 0, 0, 0, 0, 48,
    147, 38, 112, 0, 0, 0, 0, 49, 103, 118, 0, 0, 0, 0, 0, 50, 115, 8, 112, 0, 0, 0, 0, 51, 71,
    88, 0, 0, 0, 0, 0, 52, 82, 234, 112, 0, 0, 0, 0, 53, 39, 58, 0, 0, 0, 0, 0, 54, 50, 204, 112,
    0, 0, 0, 0, 55, 7, 28, 0, 0, 0, 0, 0, 56, 27, 232, 240, 0, 0, 0, 0, 56, 230, 254, 0, 0, 0, 0,
    0, 57, 251, 202, 240, 0, 0, 0, 0, 58, 198, 224, 0, 0, 0, 0, 0, 59, 219, 172, 240, 0, 0, 0, 0,
    60, 175, 252, 128, 0, 0, 0, 0, 61, 187, 142, 240, 0, 0, 0, 0, 62, 143, 222, 128, 0, 0, 0, 0,
    63, 155, 112, 240, 0, 0, 0, 0, 64, 111, 192, 128, 0, 0, 0, 0, 65, 132, 141, 112, 0, 0, 0, 0,
    66, 79, 162, 128, 0, 0, 0, 0, 67, 100, 111, 112, 0, 0, 0, 0, 68, 47, 132, 128, 0, 0, 0, 0, 69,
    68, 81, 112, 0, 0, 0, 0, 69, 243, 183, 0, 2, 1, 2, 1, 2, 3, 4, 2, 1, 2, 1, 2, 1, 2, 1, 2, 1,
    2, 1, 2, 1, 2, 1, 2, 1, 2, 1, 2, 1, 2, 1, 2, 1, 2, 1, 2, 1, 2, 1, 2, 1, 2, 1, 2, 1, 2, 1, 2,
    1, 2, 1, 2, 1, 2, 1, 2, 1, 2, 1, 6, 5, 6, 5, 6, 5, 6, 5, 6, 5, 6, 5, 6, 5, 6, 5, 6, 5, 6, 5,
    6, 5, 6, 5, 6, 5, 6, 5, 6, 5, 255, 255, 161, 8, 0, 0, 255, 255, 171, 160, 1, 4, 255, 255, 157,
    144, 0, 8, 255, 255, 171, 160, 1, 12, 255, 255, 171, 160, 1, 16, 255, 255, 185, 176, 1, 20,
    255, 255, 171, 160, 0, 24, 76, 77, 84, 0, 77, 68, 84, 0, 77, 83, 84, 0, 77, 87, 84, 0, 77, 80,
    84, 0, 67, 68, 84, 0, 67, 83, 84, 0, 10, 67, 83, 84, 54, 67, 68, 84, 44, 77, 51, 46, 50, 46,
    48, 44, 77, 49, 49, 46, 49, 46, 48, 10,
];

/// `America/North_Dakota/New_Salem`.
#[verifier::opaque]
pub const AMERICA_NORTH_DAKOTA_NEW_SALEM: [u8; 990] = [
    84, 90, 105, 102, 50, 0, 0, 0, 0, 0, 0, 0, 0, 0, 0, 0, 0, 0, 0, 0, 0, 0, 0, 0, 0, 0, 0, 0, 0,
    0, 0, 0, 0, 0, 0, 0, 0, 0, 0, 1, 0, 0, 0, 1, 0, 0, 0, 0, 0, 0, 0, 84, 90, 105, 102, 50, 0, 0,
    0, 0, 0, 0, 0, 0, 0, 0, 0, 0, 0, 0, 0, 0, 0, 0, 0, 0, 0, 0, 0, 0, 0, 0, 0, 0, 0, 0, 89, 0, 0,
    0, 7, 0, 0, 0, 28, 255, 255, 255, 255, 94, 4, 12, 176, 255, 255, 255, 255, 158, 166, 58, 144,
    255, 255, 255, 255, 159, 187, 7, 128, 255, 255, 255, 255, 160, 134, 28, 144, 255, 255, 255,
    255, 161, 154, 233, 128, 255, 255, 255, 255, 203, 137, 12, 144, 255, 255, 255, 255, 210, 35,
    244, 112, 255, 255, 255, 255, 210, 97, 24, 0, 255, 255, 255, 255, 250, 248, 117, 16, 255, 255,
    255, 255, 251, 232, 88, 0, 255, 255, 255, 255, 252, 216, 87, 16, 255, 255, 255, 255, 253, 200,
    58, 0, 255, 255, 255, 255, 254, 184, 57, 16, 255, 255, 255, 255, 255, 168, 28, 0, 0, 0, 0, 0,
    0, 152, 27, 16, 0, 0, 0, 0, 1, 135, 254, 0, 0, 0, 0, 0, 2, 119, 253, 16, 0, 0, 0, 0, 3, 113,
    26, 128, 0, 0, 0, 0, 4, 97, 25, 144, 0, 0, 0, 0, 5, 80, 252, 128, 0, 0, 0, 0, 6, 64, 251, 144,
    0, 0, 0, 0, 7, 48, 222, 128, 0, 0, 0, 0, 7, 141, 53, 144, 0, 0, 0, 0, 9, 16, 192, 128, 0, 0,
    0, 0, 9, 173, 177, 16, 0, 0, 0, 0, 10, 240, 162, 128, 0, 0, 0, 0, 11, 224, 161, 144, 0, 0, 0,
    0, 12, 217, 191, 0, 0, 0, 0, 0, 13, 192, 131, 144, 0, 0, 0, 0, 14, 185, 161, 0, 0, 0, 0, 0,
    15, 169, 160, 16, 0, 0, 0, 0, 16, 153, 131, 0, 0, 0, 0, 0, 17, 137, 130, 16, 0, 0, 0, 0, 18,
    121, 101, 0, 0, 0, 0, 0, 19, 105, 100, 16, 0, 0, 0, 0, 20, 89, 71, 0, 0, 0, 0, 0, 21, 73, 70,
    16, 0, 0, 0, 0, 22, 57, 41, 0, 0, 0, 0, 0, 23, 41, 40, 16, 0, 0, 0, 0, 24, 34, 69, 128, 0, 0,
    0, 0, 25, 9, 10, 16, 0, 0, 0, 0, 26, 2, 39, 128, 0, 0, 0, 0, 26, 242, 38, 144, 0, 0, 0, 0, 27,
    226, 9, 128, 0, 0, 0, 0, 28, 210, 8, 144, 0, 0, 0, 0, 29, 193, 235, 128, 0, 0, 0, 0, 30, 177,
    234, 144, 0, 0, 0, 0, 31, 161, 205, 128, 0, 0, 0, 0, 32, 118, 29, 16, 0, 0, 0, 0, 33, 129,
    175, 128, 0, 0, 0, 0, 34, 85, 255, 16, 0, 0, 0, 0, 35, 106, 204, 0, 0, 0, 0, 0, 36, 53, 225,
    16, 0, 0, 0, 0, 37, 74, 174, 0, 0, 0, 0, 0, 38, 21, 195, 16, 0, 0, 0, 0, 39, 42, 144, 0, 0, 0,
    0, 0, 39, 254, 223, 144, 0, 0, 0, 0, 41, 10, 114, 0, 0, 0, 0, 0, 41, 222, 193, 144, 0, 0, 0,
    0, 42, 234, 84, 0, 0, 0, 0, 0, 43, 190, 163, 144, 0, 0, 0, 0, 44, 211, 112, 128, 0, 0, 0, 0,
    45, 158, 133, 144, 0, 0, 0, 0, 46, 179, 82, 128, 0, 0, 0, 0, 47, 126, 103, 144, 0, 0, 0, 0,
    48, 147, 52, 128, 0, 0, 0, 0, 49, 103, 132, 16, 0, 0, 0, 0, 50, 115, 22, 128, 0, 0, 0, 0, 51,
    71, 102, 16, 0, 0, 0, 0, 52, 82, 248, 128, 0, 0, 0, 0, 53, 39, 72, 16, 0, 0, 0, 0, 54, 50,
    218, 128, 0, 0, 0, 0, 55, 7, 42, 16, 0, 0, 0, 0, 56, 27, 247, 0, 0, 0, 0, 0, 56, 231, 12, 16,
    0, 0, 0, 0, 57, 251, 217, 0, 0, 0, 0, 0, 58, 198, 238, 16, 0, 0, 0, 0, 59, 219, 187, 0, 0, 0,
    0, 0, 60, 176, 10, 144, 0, 0, 0, 0, 61, 187, 157, 0, 0, 0, 0, 0, 62, 143, 236, 144, 0, 0, 0,
    0, 63, 155, 127, 0, 0, 0, 0, 0, 64, 111, 192, 128, 0, 0, 0, 0, 65, 132, 141, 112, 0, 0, 0, 0,
    66, 79, 162, 128, 0, 0, 0, 0, 67, 100, 111, 112, 0, 0, 0, 0, 68, 47, 132, 128, 0, 0, 0, 0, 69,
    68, 81, 112, 0, 0, 0, 0, 69, 243, 183, 0, 2, 1, 2, 1, 2, 3, 4, 2, 1, 2, 1, 2, 1, 2, 1, 2, 1,
    2, 1, 2, 1, 2, 1, 2, 1, 2, 1, 2, 1, 2, 1, 2, 1, 2, 1, 2, 1, 2, 1, 2, 1, 2, 1, 2, 1, 2, 1, 2,
    1, 2, 1, 2, 1, 2, 1, 2, 1, 2, 1, 2, 1, 2, 1, 2, 1, 2, 1, 2, 1, 2, 1, 2, 1, 2, 1, 2, 1, 2, 1,
    2, 1, 6, 5, 6, 5, 6, 5, 6, 5, 255, 255, 160, 237, 0, 0, 255, 255, 171, 160, 1, 4, 255, 255,
    157, 144, 0, 8, 255, 255, 171, 160, 1, 12, 255, 255, 171, 160, 1, 16, 255, 255, 185, 176, 1,
    20, 255, 255, 171, 160, 0, 24, 76, 77, 84, 0, 77, 68, 84, 0, 77, 83, 84, 0, 77, 87, 84, 0, 77,
    80, 84, 0, 67, 68, 84, 0, 67, 83, 84, 0, 10, 67, 83, 84, 54, 67, 68, 84, 44, 77, 51, 46, 50,
    46, 48, 44, 77, 49, 49, 46, 49, 46, 48, 10,
];

/// `America/Nuuk`.
#[verifier::opaque]
pub const AMERICA_NUUK: [u8; 965] = [
    84, 90, 105, 102, 51, 0, 0, 0, 0, 0, 0, 0, 0, 0, 0, 0, 0, 0, 0, 0, 0, 0, 0, 0, 0, 0, 0, 0, 0,
    0, 0, 0, 0, 0, 0, 0, 0, 0, 0, 1, 0, 0, 0, 1, 0, 0, 0, 0, 0, 0, 0, 84, 90, 105, 102, 51, 0, 0,
    0, 0, 0, 0, 0, 0, 0, 0, 0, 0, 0, 0, 0, 0, 0, 0, 0, 0, 0, 0, 0, 0, 0, 0, 0, 0, 0, 0, 89, 0, 0,
    0, 4, 0, 0, 0, 12, 255, 255, 255, 255, 155, 128, 104, 0, 0, 0, 0, 0, 19, 77, 124, 80, 0, 0, 0,
    0, 20, 51, 250, 144, 0, 0, 0, 0, 21, 35, 235, 144, 0, 0, 0, 0, 22, 19, 220, 144, 0, 0, 0, 0,
    23, 3, 205, 144, 0, 0, 0, 0, 23, 243, 190, 144, 0, 0, 0, 0, 24, 227, 175, 144, 0, 0, 0, 0, 25,
    211, 160, 144, 0, 0, 0, 0, 26, 195, 145, 144, 0, 0, 0, 0, 27, 188, 189, 16, 0, 0, 0, 0, 28,
    172, 174, 16, 0, 0, 0, 0, 29, 156, 159, 16, 0, 0, 0, 0, 30, 140, 144, 16, 0, 0, 0, 0, 31, 124,
    129, 16, 0, 0, 0, 0, 32, 108, 114, 16, 0, 0, 0, 0, 33, 92, 99, 16, 0, 0, 0, 0, 34, 76, 84, 16,
    0, 0, 0, 0, 35, 60, 69, 16, 0, 0, 0, 0, 36, 44, 54, 16, 0, 0, 0, 0, 37, 28, 39, 16, 0, 0, 0,
    0, 38, 12, 24, 16, 0, 0, 0, 0, 39, 5, 67, 144, 0, 0, 0, 0, 39, 245, 52, 144, 0, 0, 0, 0, 40,
    229, 37, 144, 0, 0, 0, 0, 41, 213, 22, 144, 0, 0, 0, 0, 42, 197, 7, 144, 0, 0, 0, 0, 43, 180,
    248, 144, 0, 0, 0, 0, 44, 164, 233, 144, 0, 0, 0, 0, 45, 148, 218, 144, 0, 0, 0, 0, 46, 132,
    203, 144, 0, 0, 0, 0, 47, 116, 188, 144, 0, 0, 0, 0, 48, 100, 173, 144, 0, 0, 0, 0, 49, 93,
    217, 16, 0, 0, 0, 0, 50, 114, 180, 16, 0, 0, 0, 0, 51, 61, 187, 16, 0, 0, 0, 0, 52, 82, 150,
    16, 0, 0, 0, 0, 53, 29, 157, 16, 0, 0, 0, 0, 54, 50, 120, 16, 0, 0, 0, 0, 54, 253, 127, 16, 0,
    0, 0, 0, 56, 27, 148, 144, 0, 0, 0, 0, 56, 221, 97, 16, 0, 0, 0, 0, 57, 251, 118, 144, 0, 0,
    0, 0, 58, 189, 67, 16, 0, 0, 0, 0, 59, 219, 88, 144, 0, 0, 0, 0, 60, 166, 95, 144, 0, 0, 0, 0,
    61, 187, 58, 144, 0, 0, 0, 0, 62, 134, 65, 144, 0, 0, 0, 0, 63, 155, 28, 144, 0, 0, 0, 0, 64,
    102, 35, 144, 0, 0, 0, 0, 65, 132, 57, 16, 0, 0, 0, 0, 66, 70, 5, 144, 0, 0, 0, 0, 67, 100,
    27, 16, 0, 0, 0, 0, 68, 37, 231, 144, 0, 0, 0, 0, 69, 67, 253, 16, 0, 0, 0, 0, 70, 5, 201,
    144, 0, 0, 0, 0, 71, 35, 223, 16, 0, 0, 0, 0, 71, 238, 230, 16, 0, 0, 0, 0, 73, 3, 193, 16, 0,
    0, 0, 0, 73, 206, 200, 16, 0, 0, 0, 0, 74, 227, 163, 16, 0, 0, 0, 0, 75, 174, 170, 16, 0, 0,
    0, 0, 76, 204, 191, 144, 0, 0, 0, 0, 77, 142, 140, 16, 0, 0, 0, 0, 78, 172, 161, 144, 0, 0, 0,
    0, 79, 110, 110, 16, 0, 0, 0, 0, 80, 140, 131, 144, 0, 0, 0, 0, 81, 87, 138, 144, 0, 0, 0, 0,
    82, 108, 101, 144, 0, 0, 0, 0, 83, 55, 108, 144, 0, 0, 0, 0, 84, 76, 71, 144, 0, 0, 0, 0, 85,
    23, 78, 144, 0, 0, 0, 0, 86, 44, 41, 144, 0, 0, 0, 0, 86, 247, 48, 144, 0, 0, 0, 0, 88, 21,
    70, 16, 0, 0, 0, 0, 88, 215, 18, 144, 0, 0, 0, 0, 89, 245, 40, 16, 0, 0, 0, 0, 90, 182, 244,
    144, 0, 0, 0, 0, 91, 213, 10, 16, 0, 0, 0, 0, 92, 160, 17, 16, 0, 0, 0, 0, 93, 180, 236, 16,
    0, 0, 0, 0, 94, 127, 243, 16, 0, 0, 0, 0, 95, 148, 206, 16, 0, 0, 0, 0, 96, 95, 213, 16, 0, 0,
    0, 0, 97, 125, 234, 144, 0, 0, 0, 0, 98, 63, 183, 16, 0, 0, 0, 0, 99, 93, 204, 144, 0, 0, 0,
    0, 100, 31, 153, 16, 0, 0, 0, 0, 101, 61, 174, 144, 1, 2, 1, 2, 1, 2, 1, 2, 1, 2, 1, 2, 1, 2,
    1, 2, 1, 2, 1, 2, 1, 2, 1, 2, 1, 2, 1, 2, 1, 2, 1, 2, 1, 2, 1, 2, 1, 2, 1, 2, 1, 2, 1, 2, 1,
    2, 1, 2, 1, 2, 1, 2, 1, 2, 1, 2, 1, 2, 1, 2, 1, 2, 1, 2, 1, 2, 1, 2, 1, 2, 1, 2, 1, 2, 1, 2,
    1, 2, 1, 2, 1, 2, 1, 2, 1, 2, 1, 3, 3, 255, 255, 207, 128, 0, 0, 255, 255, 213, 208, 0, 4,
    255, 255, 227, 224, 1, 8, 255, 255, 227, 224, 0, 8, 76, 77, 84, 0, 45, 48, 51, 0, 45, 48, 50,
    0, 10, 60, 45, 48, 50, 62, 50, 60, 45, 48, 49, 62, 44, 77, 51, 46, 53, 46, 48, 47, 45, 49, 44,
    77, 49, 48, 46, 53, 46, 48, 47, 48, 10,
];

/// `America/Ojinaga`.
#[verifier::opaque]
pub const AMERICA_OJINAGA: [u8; 718] = [
    84, 90, 105, 102, 50, 0, 0, 0, 0, 0, 0, 0, 0, 0, 0, 0, 0, 0, 0, 0, 0, 0, 0, 0, 0, 0, 0, 0, 0,
    0, 0, 0, 0, 0, 0, 0, 0, 0, 0, 1, 0, 0, 0, 1, 0, 0, 0, 0, 0, 0, 0, 84, 90, 105, 102, 50, 0, 0,
    0, 0, 0, 0, 0, 0, 0, 0, 0, 0, 0, 0, 0, 0, 0, 0, 0, 0, 0, 0, 0, 0, 0, 0, 0, 0, 0, 0, 61, 0, 0,
    0, 5, 0, 0, 0, 20, 255, 255, 255, 255, 165, 182, 232, 112, 255, 255, 255, 255, 175, 241, 43,
    112, 255, 255, 255, 255, 182, 102, 86, 96, 255, 255, 255, 255, 183, 65, 61, 112, 255, 255,
    255, 255, 184, 12, 54, 96, 255, 255, 255, 255, 184, 253, 134, 240, 0, 0, 0, 0, 49, 103, 118,
    0, 0, 0, 0, 0, 50, 115, 8, 112, 0, 0, 0, 0, 51, 71, 88, 0, 0, 0, 0, 0, 52, 82, 234, 112, 0, 0,
    0, 0, 53, 39, 72, 16, 0, 0, 0, 0, 54, 50, 218, 128, 0, 0, 0, 0, 55, 7, 42, 16, 0, 0, 0, 0, 56,
    27, 247, 0, 0, 0, 0, 0, 56, 231, 12, 16, 0, 0, 0, 0, 57, 251, 217, 0, 0, 0, 0, 0, 58, 245, 18,
    144, 0, 0, 0, 0, 59, 182, 209, 0, 0, 0, 0, 0, 60, 176, 10, 144, 0, 0, 0, 0, 61, 187, 157, 0,
    0, 0, 0, 0, 62, 143, 236, 144, 0, 0, 0, 0, 63, 155, 127, 0, 0, 0, 0, 0, 64, 111, 206, 144, 0,
    0, 0, 0, 65, 132, 155, 128, 0, 0, 0, 0, 66, 79, 176, 144, 0, 0, 0, 0, 67, 100, 125, 128, 0, 0,
    0, 0, 68, 47, 146, 144, 0, 0, 0, 0, 69, 68, 95, 128, 0, 0, 0, 0, 70, 15, 116, 144, 0, 0, 0, 0,
    71, 36, 65, 128, 0, 0, 0, 0, 71, 248, 145, 16, 0, 0, 0, 0, 73, 4, 35, 128, 0, 0, 0, 0, 73,
    216, 115, 16, 0, 0, 0, 0, 74, 228, 5, 128, 0, 0, 0, 0, 75, 156, 165, 144, 0, 0, 0, 0, 76, 214,
    92, 128, 0, 0, 0, 0, 77, 124, 135, 144, 0, 0, 0, 0, 78, 182, 62, 128, 0, 0, 0, 0, 79, 92, 105,
    144, 0, 0, 0, 0, 80, 150, 32, 128, 0, 0, 0, 0, 81, 60, 75, 144, 0, 0, 0, 0, 82, 118, 2, 128,
    0, 0, 0, 0, 83, 28, 45, 144, 0, 0, 0, 0, 84, 85, 228, 128, 0, 0, 0, 0, 84, 252, 15, 144, 0, 0,
    0, 0, 86, 53, 198, 128, 0, 0, 0, 0, 86, 229, 44, 16, 0, 0, 0, 0, 88, 30, 227, 0, 0, 0, 0, 0,
    88, 197, 14, 16, 0, 0, 0, 0, 89, 254, 197, 0, 0, 0, 0, 0, 90, 164, 240, 16, 0, 0, 0, 0, 91,
    222, 167, 0, 0, 0, 0, 0, 92, 132, 210, 16, 0, 0, 0, 0, 93, 190, 137, 0, 0, 0, 0, 0, 94, 100,
    180, 16, 0, 0, 0, 0, 95, 158, 107, 0, 0, 0, 0, 0, 96, 77, 208, 144, 0, 0, 0, 0, 97, 135, 135,
    128, 0, 0, 0, 0, 98, 45, 178, 144, 0, 0, 0, 0, 99, 94, 47, 0, 0, 0, 0, 0, 99, 134, 241, 96, 1,
    2, 1, 3, 1, 2, 4, 2, 4, 2, 3, 1, 3, 1, 3, 1, 3, 1, 3, 1, 3, 1, 3, 1, 3, 1, 3, 1, 3, 1, 3, 1,
    3, 1, 3, 1, 3, 1, 3, 1, 3, 1, 3, 1, 3, 1, 3, 1, 3, 1, 3, 1, 3, 1, 3, 1, 3, 1, 3, 2, 2, 255,
    255, 158, 28, 0, 0, 255, 255, 157, 144, 0, 4, 255, 255, 171, 160, 0, 8, 255, 255, 171, 160, 1,
    12, 255, 255, 185, 176, 1, 16, 76, 77, 84, 0, 77, 83, 84, 0, 67, 83, 84, 0, 77, 68, 84, 0, 67,
    68, 84, 0, 10, 67, 83, 84, 54, 67, 68, 84, 44, 77, 51, 46, 50, 46, 48, 44, 77, 49, 49, 46, 49,
    46, 48, 10,
];

/// `America/Panama`.
#[verifier::opaque]
pub const AMERICA_PANAMA: [u8; 149] = [
    84, 90, 105, 102, 50, 0, 0, 0, 0, 0, 0, 0, 0, 0, 0, 0, 0, 0, 0, 0, 0, 0, 0, 0, 0, 0, 0, 0, 0,
    0, 0, 0, 0, 0, 0, 0, 0, 0, 0, 1, 0, 0, 0, 1, 0, 0, 0, 0, 0, 0, 0, 84, 90, 105, 102, 50, 0, 0,
    0, 0, 0, 0, 0, 0, 0, 0, 0, 0, 0, 0, 0, 0, 0, 0, 0, 0, 0, 0, 0, 0, 0, 0, 0, 0, 0, 0, 2, 0, 0,
    0, 3, 0, 0, 0, 12, 255, 255, 255, 255, 105, 135, 38, 16, 255, 255, 255, 255, 139, 244, 97,
    232, 1, 2, 255, 255, 181, 112, 0, 0, 255, 255, 181, 24, 0, 4, 255, 255, 185, 176, 0, 8, 76,
    77, 84, 0, 67, 77, 84, 0, 69, 83, 84, 0, 10, 69, 83, 84, 53, 10,
];

/// `America/Paramaribo`.
#[verifier::opaque]
pub const AMERICA_PARAMARIBO: [u8; 187] = [
    84, 90, 105, 102, 50, 0, 0, 0, 0, 0, 0, 0, 0, 0, 0, 0, 0, 0, 0, 0, 0, 0, 0, 0, 0, 0, 0, 0, 0,
    0, 0, 0, 0, 0, 0, 0, 0, 0, 0, 1, 0, 0, 0, 1, 0, 0, 0, 0, 0, 0, 0, 84, 90, 105, 102, 50, 0, 0,
    0, 0, 0, 0, 0, 0, 0, 0, 0, 0, 0, 0, 0, 0, 0, 0, 0, 0, 0, 0, 0, 0, 0, 0, 0, 0, 0, 0, 4, 0, 0,
    0, 5, 0, 0, 0, 18, 255, 255, 255, 255, 145, 5, 142, 184, 255, 255, 255, 255, 190, 42, 75, 196,
    255, 255, 255, 255, 210, 98, 44, 180, 0, 0, 0, 0, 27, 190, 49, 184, 1, 2, 3, 4, 255, 255, 204,
    72, 0, 0, 255, 255, 204, 60, 0, 4, 255, 255, 204, 76, 0, 4, 255, 255, 206, 200, 0, 8, 255,
    255, 213, 208, 0, 14, 76, 77, 84, 0, 80, 77, 84, 0, 45, 48, 51, 51, 48, 0, 45, 48, 51, 0, 10,
    60, 45, 48, 51, 62, 51, 10,
];

/// `America/Phoenix`.
#[verifier::opaque]
pub const AMERICA_PHOENIX: [u8; 240] = [
    84, 90, 105, 102, 50, 0, 0, 0, 0, 0, 0, 0, 0, 0, 0, 0, 0, 0, 0, 0, 0, 0, 0, 0, 0, 0, 0, 0, 0,
    0, 0, 0, 0, 0, 0, 0, 0, 0, 0, 1, 0, 0, 0, 1, 0, 0, 0, 0, 0, 0, 0, 84, 90, 105, 102, 50, 0, 0,
    0, 0, 0, 0, 0, 0, 0, 0, 0, 0, 0, 0, 0, 0, 0, 0, 0, 0, 0, 0, 0, 0, 0, 0, 0, 0, 0, 0, 11, 0, 0,
    0, 4, 0, 0, 0, 16, 255, 255, 255, 255, 94, 4, 12, 176, 255, 255, 255, 255, 158, 166, 58, 144,
    255, 255, 255, 255, 159, 187, 7, 128, 255, 255, 255, 255, 160, 134, 28, 144, 255, 255, 255,
    255, 161, 154, 233, 128, 255, 255, 255, 255, 203, 137, 12, 144, 255, 255, 255, 255, 207, 23,
    223, 28, 255, 255, 255, 255, 207, 143, 229, 172, 255, 255, 255, 255, 208, 129, 26, 28, 255,
    255, 255, 255, 250, 248, 117, 16, 255, 255, 255, 255, 251, 232, 88, 0, 2, 1, 2, 1, 2, 3, 2, 3,
    2, 1, 2, 255, 255, 150, 238, 0, 0, 255, 255, 171, 160, 1, 4, 255, 255, 157, 144, 0, 8, 255,
    255, 171, 160, 1, 12, 76, 77, 84, 0, 77, 68, 84, 0, 77, 83, 84, 0, 77, 87, 84, 0, 10, 77, 83,
    84, 55, 10,
];

/// `America/Port-au-Prince`.
#[verifier::opaque]
pub const AMERICA_PORT_MINUS_AU_MINUS_PRINCE: [u8; 565] = [
    84, 90, 105, 102, 50, 0, 0, 0, 0, 0, 0, 0, 0, 0, 0, 0, 0, 0, 0, 0, 0, 0, 0, 0, 0, 0, 0, 0, 0,
    0, 0, 0, 0, 0, 0, 0, 0, 0, 0, 1, 0, 0, 0, 1, 0, 0, 0, 0, 0, 0, 0, 84, 90, 105, 102, 50, 0, 0,
    0, 0, 0, 0, 0, 0, 0, 0, 0, 0, 0, 0, 0, 0, 0, 0, 0, 0, 0, 0, 0, 0, 0, 0, 0, 0, 0, 0, 45, 0, 0,
    0, 4, 0, 0, 0, 17, 255, 255, 255, 255, 105, 135, 31, 80, 255, 255, 255, 255, 156, 110, 113,
    252, 0, 0, 0, 0, 25, 27, 70, 208, 0, 0, 0, 0, 26, 1, 239, 64, 0, 0, 0, 0, 26, 241, 238, 80, 0,
    0, 0, 0, 27, 225, 209, 64, 0, 0, 0, 0, 28, 209, 208, 80, 0, 0, 0, 0, 29, 193, 179, 64, 0, 0,
    0, 0, 30, 177, 178, 80, 0, 0, 0, 0, 31, 161, 149, 64, 0, 0, 0, 0, 32, 145, 148, 80, 0, 0, 0,
    0, 33, 129, 119, 64, 0, 0, 0, 0, 34, 85, 212, 224, 0, 0, 0, 0, 35, 106, 175, 224, 0, 0, 0, 0,
    36, 53, 182, 224, 0, 0, 0, 0, 37, 74, 145, 224, 0, 0, 0, 0, 38, 21, 152, 224, 0, 0, 0, 0, 39,
    42, 115, 224, 0, 0, 0, 0, 39, 254, 181, 96, 0, 0, 0, 0, 41, 10, 85, 224, 0, 0, 0, 0, 41, 222,
    151, 96, 0, 0, 0, 0, 42, 234, 55, 224, 0, 0, 0, 0, 43, 190, 121, 96, 0, 0, 0, 0, 44, 211, 84,
    96, 0, 0, 0, 0, 45, 158, 91, 96, 0, 0, 0, 0, 46, 179, 54, 96, 0, 0, 0, 0, 47, 126, 61, 96, 0,
    0, 0, 0, 48, 147, 24, 96, 0, 0, 0, 0, 49, 103, 89, 224, 0, 0, 0, 0, 50, 114, 250, 96, 0, 0, 0,
    0, 51, 71, 59, 224, 0, 0, 0, 0, 52, 82, 220, 96, 0, 0, 0, 0, 66, 79, 120, 80, 0, 0, 0, 0, 67,
    100, 69, 64, 0, 0, 0, 0, 68, 47, 90, 80, 0, 0, 0, 0, 69, 68, 39, 64, 0, 0, 0, 0, 79, 92, 77,
    112, 0, 0, 0, 0, 80, 150, 4, 96, 0, 0, 0, 0, 81, 60, 47, 112, 0, 0, 0, 0, 82, 117, 230, 96, 0,
    0, 0, 0, 83, 28, 17, 112, 0, 0, 0, 0, 84, 85, 200, 96, 0, 0, 0, 0, 84, 251, 243, 112, 0, 0, 0,
    0, 86, 53, 170, 96, 0, 0, 0, 0, 88, 196, 241, 240, 1, 3, 2, 3, 2, 3, 2, 3, 2, 3, 2, 3, 2, 3,
    2, 3, 2, 3, 2, 3, 2, 3, 2, 3, 2, 3, 2, 3, 2, 3, 2, 3, 2, 3, 2, 3, 2, 3, 2, 3, 2, 3, 2, 3, 2,
    255, 255, 188, 48, 0, 0, 255, 255, 188, 68, 0, 4, 255, 255, 199, 192, 1, 9, 255, 255, 185,
    176, 0, 13, 76, 77, 84, 0, 80, 80, 77, 84, 0, 69, 68, 84, 0, 69, 83, 84, 0, 10, 69, 83, 84,
    53, 69, 68, 84, 44, 77, 51, 46, 50, 46, 48, 44, 77, 49, 49, 46, 49, 46, 48, 10,
];

/// `America/Porto_Velho`.
#[verifier::opaque]
pub const AMERICA_PORTO_VELHO: [u8; 394] = [
    84, 90, 105, 102, 50, 0, 0, 0, 0, 0, 0, 0, 0, 0, 0, 0, 0, 0, 0, 0, 0, 0, 0, 0, 0, 0, 0, 0, 0,
    0, 0, 0, 0, 0, 0, 0, 0, 0, 0, 1, 0, 0, 0, 1, 0, 0, 0, 0, 0, 0, 0, 84, 90, 105, 102, 50, 0, 0,
    0, 0, 0, 0, 0, 0, 0, 0, 0, 0, 0, 0, 0, 0, 0, 0, 0, 0, 0, 0, 0, 0, 0, 0, 0, 0, 0, 0, 29, 0, 0,
    0, 3, 0, 0, 0, 12, 255, 255, 255, 255, 150, 170, 130, 232, 255, 255, 255, 255, 184, 15, 87,
    240, 255, 255, 255, 255, 184, 253, 78, 176, 255, 255, 255, 255, 185, 241, 66, 64, 255, 255,
    255, 255, 186, 222, 130, 48, 255, 255, 255, 255, 218, 56, 188, 64, 255, 255, 255, 255, 218,
    236, 8, 64, 255, 255, 255, 255, 220, 25, 239, 192, 255, 255, 255, 255, 220, 185, 103, 48, 255,
    255, 255, 255, 221, 251, 35, 64, 255, 255, 255, 255, 222, 155, 236, 48, 255, 255, 255, 255,
    223, 221, 168, 64, 255, 255, 255, 255, 224, 84, 65, 48, 255, 255, 255, 255, 244, 152, 13, 192,
    255, 255, 255, 255, 245, 5, 108, 48, 255, 255, 255, 255, 246, 192, 114, 64, 255, 255, 255,
    255, 247, 14, 44, 176, 255, 255, 255, 255, 248, 81, 58, 64, 255, 255, 255, 255, 248, 199, 211,
    48, 255, 255, 255, 255, 250, 10, 224, 192, 255, 255, 255, 255, 250, 169, 6, 176, 255, 255,
    255, 255, 251, 236, 20, 64, 255, 255, 255, 255, 252, 139, 139, 176, 0, 0, 0, 0, 29, 201, 156,
    64, 0, 0, 0, 0, 30, 120, 229, 176, 0, 0, 0, 0, 31, 160, 67, 192, 0, 0, 0, 0, 32, 51, 221, 176,
    0, 0, 0, 0, 33, 129, 119, 64, 0, 0, 0, 0, 34, 11, 214, 176, 2, 1, 2, 1, 2, 1, 2, 1, 2, 1, 2,
    1, 2, 1, 2, 1, 2, 1, 2, 1, 2, 1, 2, 1, 2, 1, 2, 1, 2, 255, 255, 196, 24, 0, 0, 255, 255, 213,
    208, 1, 4, 255, 255, 199, 192, 0, 8, 76, 77, 84, 0, 45, 48, 51, 0, 45, 48, 52, 0, 10, 60, 45,
    48, 52, 62, 52, 10,
];

/// `America/Puerto_Rico`.
#[verifier::opaque]
pub const AMERICA_PUERTO_RICO: [u8; 177] = [
    84, 90, 105, 102, 50, 0, 0, 0, 0, 0, 0, 0, 0, 0, 0, 0, 0, 0, 0, 0, 0, 0, 0, 0, 0, 0, 0, 0, 0,
    0, 0, 0, 0, 0, 0, 0, 0, 0, 0, 1, 0, 0, 0, 1, 0, 0, 0, 0, 0, 0, 0, 84, 90, 105, 102, 50, 0, 0,
    0, 0, 0, 0, 0, 0, 0, 0, 0, 0, 0, 0, 0, 0, 0, 0, 0, 0, 0, 0, 0, 0, 0, 0, 0, 0, 0, 0, 4, 0, 0,
    0, 4, 0, 0, 0, 16, 255, 255, 255, 255, 122, 230, 149, 185, 255, 255, 255, 255, 203, 246, 50,
    192, 255, 255, 255, 255, 210, 35, 244, 112, 255, 255, 255, 255, 210, 96, 237, 208, 1, 3, 2, 1,
    255, 255, 194, 7, 0, 0, 255, 255, 199, 192, 0, 4, 255, 255, 213, 208, 1, 8, 255, 255, 213,
    208, 1, 12, 76, 77, 84, 0, 65, 83, 84, 0, 65, 80, 84, 0, 65, 87, 84, 0, 10, 65, 83, 84, 52,
    10,
];

/// `America/Punta_Arenas`.
#[verifier::opaque]
pub const AMERICA_PUNTA_ARENAS: [u8; 1218] = [
    84, 90, 105, 102, 50, 0, 0, 0, 0, 0, 0, 0, 0, 0, 0, 0, 0, 0, 0, 0, 0, 0, 0, 0, 0, 0, 0, 0, 0,
    0, 0, 0, 0, 0, 0, 0, 0, 0, 0, 1, 0, 0, 0, 1, 0, 0, 0, 0, 0, 0, 0, 84, 90, 105, 102, 50, 0, 0,
    0, 0, 0, 0, 0, 0, 0, 0, 0, 0, 0, 0, 0, 0, 0, 0, 0, 0, 0, 0, 0, 0, 0, 0, 0, 0, 0, 0, 117, 0, 0,
    0, 7, 0, 0, 0, 20, 255, 255, 255, 255, 105, 135, 29, 252, 255, 255, 255, 255, 143, 48, 71, 69,
    255, 255, 255, 255, 155, 92, 229, 80, 255, 255, 255, 255, 159, 124, 226, 197, 255, 255, 255,
    255, 161, 0, 113, 192, 255, 255, 255, 255, 176, 94, 119, 197, 255, 255, 255, 255, 177, 119,
    61, 64, 255, 255, 255, 255, 178, 65, 0, 208, 255, 255, 255, 255, 179, 88, 112, 192, 255, 255,
    255, 255, 180, 34, 52, 80, 255, 255, 255, 255, 181, 57, 164, 64, 255, 255, 255, 255, 182, 3,
    103, 208, 255, 255, 255, 255, 183, 26, 215, 192, 255, 255, 255, 255, 183, 228, 155, 80, 255,
    255, 255, 255, 184, 253, 92, 192, 255, 255, 255, 255, 185, 199, 32, 80, 255, 255, 255, 255,
    204, 28, 110, 64, 255, 255, 255, 255, 204, 108, 231, 208, 255, 255, 255, 255, 212, 23, 227,
    64, 255, 255, 255, 255, 213, 51, 85, 192, 255, 255, 255, 255, 213, 118, 146, 64, 255, 255,
    255, 255, 253, 209, 60, 64, 255, 255, 255, 255, 254, 146, 250, 176, 255, 255, 255, 255, 255,
    204, 205, 192, 0, 0, 0, 0, 0, 114, 220, 176, 0, 0, 0, 0, 1, 117, 80, 192, 0, 0, 0, 0, 2, 64,
    73, 176, 0, 0, 0, 0, 3, 85, 50, 192, 0, 0, 0, 0, 4, 32, 43, 176, 0, 0, 0, 0, 5, 62, 79, 64, 0,
    0, 0, 0, 6, 0, 13, 176, 0, 0, 0, 0, 7, 11, 188, 64, 0, 0, 0, 0, 7, 223, 239, 176, 0, 0, 0, 0,
    8, 254, 19, 64, 0, 0, 0, 0, 9, 191, 209, 176, 0, 0, 0, 0, 10, 221, 245, 64, 0, 0, 0, 0, 11,
    168, 238, 48, 0, 0, 0, 0, 12, 189, 215, 64, 0, 0, 0, 0, 13, 136, 208, 48, 0, 0, 0, 0, 14, 157,
    185, 64, 0, 0, 0, 0, 15, 104, 178, 48, 0, 0, 0, 0, 16, 134, 213, 192, 0, 0, 0, 0, 17, 72, 148,
    48, 0, 0, 0, 0, 18, 102, 183, 192, 0, 0, 0, 0, 19, 40, 118, 48, 0, 0, 0, 0, 20, 70, 153, 192,
    0, 0, 0, 0, 21, 17, 146, 176, 0, 0, 0, 0, 22, 38, 123, 192, 0, 0, 0, 0, 22, 241, 116, 176, 0,
    0, 0, 0, 24, 6, 93, 192, 0, 0, 0, 0, 24, 209, 86, 176, 0, 0, 0, 0, 25, 230, 63, 192, 0, 0, 0,
    0, 26, 177, 56, 176, 0, 0, 0, 0, 27, 207, 92, 64, 0, 0, 0, 0, 28, 145, 26, 176, 0, 0, 0, 0,
    29, 175, 62, 64, 0, 0, 0, 0, 30, 112, 252, 176, 0, 0, 0, 0, 31, 143, 32, 64, 0, 0, 0, 0, 32,
    127, 3, 48, 0, 0, 0, 0, 33, 111, 2, 64, 0, 0, 0, 0, 34, 57, 251, 48, 0, 0, 0, 0, 35, 78, 228,
    64, 0, 0, 0, 0, 36, 25, 221, 48, 0, 0, 0, 0, 37, 56, 0, 192, 0, 0, 0, 0, 37, 249, 191, 48, 0,
    0, 0, 0, 38, 242, 248, 192, 0, 0, 0, 0, 39, 217, 161, 48, 0, 0, 0, 0, 40, 247, 196, 192, 0, 0,
    0, 0, 41, 194, 189, 176, 0, 0, 0, 0, 42, 215, 166, 192, 0, 0, 0, 0, 43, 162, 159, 176, 0, 0,
    0, 0, 44, 183, 136, 192, 0, 0, 0, 0, 45, 130, 129, 176, 0, 0, 0, 0, 46, 151, 106, 192, 0, 0,
    0, 0, 47, 98, 99, 176, 0, 0, 0, 0, 48, 128, 135, 64, 0, 0, 0, 0, 49, 66, 69, 176, 0, 0, 0, 0,
    50, 96, 105, 64, 0, 0, 0, 0, 51, 61, 215, 48, 0, 0, 0, 0, 52, 64, 75, 64, 0, 0, 0, 0, 53, 11,
    68, 48, 0, 0, 0, 0, 54, 13, 184, 64, 0, 0, 0, 0, 55, 6, 213, 176, 0, 0, 0, 0, 56, 0, 15, 64,
    0, 0, 0, 0, 56, 203, 8, 48, 0, 0, 0, 0, 57, 233, 43, 192, 0, 0, 0, 0, 58, 170, 234, 48, 0, 0,
    0, 0, 59, 201, 13, 192, 0, 0, 0, 0, 60, 138, 204, 48, 0, 0, 0, 0, 61, 168, 239, 192, 0, 0, 0,
    0, 62, 106, 174, 48, 0, 0, 0, 0, 63, 136, 209, 192, 0, 0, 0, 0, 64, 83, 202, 176, 0, 0, 0, 0,
    65, 104, 179, 192, 0, 0, 0, 0, 66, 51, 172, 176, 0, 0, 0, 0, 67, 72, 149, 192, 0, 0, 0, 0, 68,
    19, 142, 176, 0, 0, 0, 0, 69, 49, 178, 64, 0, 0, 0, 0, 69, 243, 112, 176, 0, 0, 0, 0, 71, 17,
    148, 64, 0, 0, 0, 0, 71, 239, 2, 48, 0, 0, 0, 0, 72, 241, 118, 64, 0, 0, 0, 0, 73, 188, 111,
    48, 0, 0, 0, 0, 74, 209, 88, 64, 0, 0, 0, 0, 75, 184, 0, 176, 0, 0, 0, 0, 76, 177, 58, 64, 0,
    0, 0, 0, 77, 198, 7, 48, 0, 0, 0, 0, 78, 80, 130, 192, 0, 0, 0, 0, 79, 156, 174, 176, 0, 0, 0,
    0, 80, 66, 217, 192, 0, 0, 0, 0, 81, 124, 144, 176, 0, 0, 0, 0, 82, 43, 246, 64, 0, 0, 0, 0,
    83, 92, 114, 176, 0, 0, 0, 0, 84, 11, 216, 64, 0, 0, 0, 0, 87, 55, 230, 48, 0, 0, 0, 0, 87,
    175, 236, 192, 0, 0, 0, 0, 88, 67, 134, 176, 1, 2, 1, 3, 1, 4, 2, 4, 2, 4, 2, 4, 2, 4, 2, 3,
    2, 3, 4, 2, 3, 5, 3, 5, 3, 5, 3, 5, 3, 5, 3, 5, 3, 5, 3, 5, 3, 5, 3, 5, 3, 5, 3, 5, 3, 5, 3,
    5, 3, 5, 3, 5, 3, 5, 3, 5, 3, 5, 3, 5, 3, 5, 3, 5, 3, 5, 3, 5, 3, 5, 3, 5, 3, 5, 3, 5, 3, 5,
    3, 5, 3, 5, 3, 5, 3, 5, 3, 5, 3, 5, 3, 5, 3, 5, 3, 5, 3, 5, 3, 5, 3, 5, 3, 5, 3, 5, 3, 5, 3,
    5, 3, 5, 3, 5, 3, 5, 6, 255, 255, 189, 132, 0, 0, 255, 255, 189, 187, 0, 4, 255, 255, 185,
    176, 0, 8, 255, 255, 199, 192, 0, 12, 255, 255, 199, 192, 1, 12, 255, 255, 213, 208, 1, 16,
    255, 255, 213, 208, 0, 16, 76, 77, 84, 0, 83, 77, 84, 0, 45, 48, 53, 0, 45, 48, 52, 0, 45, 48,
    51, 0, 10, 60, 45, 48, 51, 62, 51, 10,
];

/// `America/Rankin_Inlet`.
#[verifier::opaque]
pub const AMERICA_RANKIN_INLET: [u8; 807] = [
    84, 90, 105, 102, 50, 0, 0, 0, 0, 0, 0, 0, 0, 0, 0, 0, 0, 0, 0, 0, 0, 0, 0, 0, 0, 0, 0, 0, 0,
    0, 0, 0, 0, 0, 0, 0, 0, 0, 0, 1, 0, 0, 0, 1, 0, 0, 0, 0, 0, 0, 0, 84, 90, 105, 102, 50, 0, 0,
    0, 0, 0, 0, 0, 0, 0, 0, 0, 0, 0, 0, 0, 0, 0, 0, 0, 0, 0, 0, 0, 0, 0, 0, 0, 0, 0, 0, 72, 0, 0,
    0, 4, 0, 0, 0, 16, 255, 255, 255, 255, 231, 140, 110, 0, 0, 0, 0, 0, 4, 97, 11, 128, 0, 0, 0,
    0, 5, 80, 238, 112, 0, 0, 0, 0, 6, 64, 237, 128, 0, 0, 0, 0, 7, 48, 208, 112, 0, 0, 0, 0, 8,
    32, 207, 128, 0, 0, 0, 0, 9, 16, 178, 112, 0, 0, 0, 0, 10, 0, 177, 128, 0, 0, 0, 0, 10, 240,
    148, 112, 0, 0, 0, 0, 11, 224, 147, 128, 0, 0, 0, 0, 12, 217, 176, 240, 0, 0, 0, 0, 13, 192,
    117, 128, 0, 0, 0, 0, 14, 185, 146, 240, 0, 0, 0, 0, 15, 169, 146, 0, 0, 0, 0, 0, 16, 153,
    116, 240, 0, 0, 0, 0, 17, 137, 116, 0, 0, 0, 0, 0, 18, 121, 86, 240, 0, 0, 0, 0, 19, 105, 86,
    0, 0, 0, 0, 0, 20, 89, 56, 240, 0, 0, 0, 0, 21, 73, 56, 0, 0, 0, 0, 0, 22, 57, 26, 240, 0, 0,
    0, 0, 23, 41, 26, 0, 0, 0, 0, 0, 24, 34, 55, 112, 0, 0, 0, 0, 25, 8, 252, 0, 0, 0, 0, 0, 26,
    2, 25, 112, 0, 0, 0, 0, 26, 242, 24, 128, 0, 0, 0, 0, 27, 225, 251, 112, 0, 0, 0, 0, 28, 209,
    250, 128, 0, 0, 0, 0, 29, 193, 221, 112, 0, 0, 0, 0, 30, 177, 220, 128, 0, 0, 0, 0, 31, 161,
    191, 112, 0, 0, 0, 0, 32, 118, 15, 0, 0, 0, 0, 0, 33, 129, 161, 112, 0, 0, 0, 0, 34, 85, 241,
    0, 0, 0, 0, 0, 35, 106, 189, 240, 0, 0, 0, 0, 36, 53, 211, 0, 0, 0, 0, 0, 37, 74, 159, 240, 0,
    0, 0, 0, 38, 21, 181, 0, 0, 0, 0, 0, 39, 42, 129, 240, 0, 0, 0, 0, 39, 254, 209, 128, 0, 0, 0,
    0, 41, 10, 99, 240, 0, 0, 0, 0, 41, 222, 179, 128, 0, 0, 0, 0, 42, 234, 69, 240, 0, 0, 0, 0,
    43, 190, 149, 128, 0, 0, 0, 0, 44, 211, 98, 112, 0, 0, 0, 0, 45, 158, 119, 128, 0, 0, 0, 0,
    46, 179, 68, 112, 0, 0, 0, 0, 47, 126, 89, 128, 0, 0, 0, 0, 48, 147, 38, 112, 0, 0, 0, 0, 49,
    103, 118, 0, 0, 0, 0, 0, 50, 115, 8, 112, 0, 0, 0, 0, 51, 71, 88, 0, 0, 0, 0, 0, 52, 82, 234,
    112, 0, 0, 0, 0, 53, 39, 58, 0, 0, 0, 0, 0, 54, 50, 204, 112, 0, 0, 0, 0, 55, 7, 28, 0, 0, 0,
    0, 0, 56, 27, 232, 240, 0, 0, 0, 0, 56, 230, 254, 0, 0, 0, 0, 0, 57, 251, 202, 240, 0, 0, 0,
    0, 58, 198, 224, 0, 0, 0, 0, 0, 59, 219, 172, 240, 0, 0, 0, 0, 60, 175, 252, 128, 0, 0, 0, 0,
    61, 187, 142, 240, 0, 0, 0, 0, 62, 143, 222, 128, 0, 0, 0, 0, 63, 155, 112, 240, 0, 0, 0, 0,
    64, 111, 192, 128, 0, 0, 0, 0, 65, 132, 141, 112, 0, 0, 0, 0, 66, 79, 162, 128, 0, 0, 0, 0,
    67, 100, 111, 112, 0, 0, 0, 0, 68, 47, 132, 128, 0, 0, 0, 0, 69, 68, 81, 112, 0, 0, 0, 0, 69,
    243, 183, 0, 2, 1, 2, 1, 2, 1, 2, 1, 2, 1, 2, 1, 2, 1, 2, 1, 2, 1, 2, 1, 2, 1, 2, 1, 2, 1, 2,
    1, 2, 1, 2, 1, 2, 1, 2, 1, 2, 1, 2, 1, 2, 1, 2, 1, 2, 1, 2, 1, 2, 1, 2, 1, 2, 1, 2, 1, 2, 1,
    3, 1, 2, 1, 2, 1, 2, 1, 2, 1, 2, 1, 2, 1, 0, 0, 0, 0, 0, 0, 255, 255, 185, 176, 1, 4, 255,
    255, 171, 160, 0, 8, 255, 255, 185, 176, 0, 12, 45, 48, 48, 0, 67, 68, 84, 0, 67, 83, 84, 0,
    69, 83, 84, 0, 10, 67, 83, 84, 54, 67, 68, 84, 44, 77, 51, 46, 50, 46, 48, 44, 77, 49, 49, 46,
    49, 46, 48, 10,
];

/// `America/Recife`.
#[verifier::opaque]
pub const AMERICA_RECIFE: [u8; 484] = [
    84, 90, 105, 102, 50, 0, 0, 0, 0, 0, 0, 0, 0, 0, 0, 0, 0, 0, 0, 0, 0, 0, 0, 0, 0, 0, 0, 0, 0,
    0, 0, 0, 0, 0, 0, 0, 0, 0, 0, 1, 0, 0, 0, 1, 0, 0, 0, 0, 0, 0, 0, 84, 90, 105, 102, 50, 0, 0,
    0, 0, 0, 0, 0, 0, 0, 0, 0, 0, 0, 0, 0, 0, 0, 0, 0, 0, 0, 0, 0, 0, 0, 0, 0, 0, 0, 0, 39, 0, 0,
    0, 3, 0, 0, 0, 12, 255, 255, 255, 255, 150, 170, 103, 184, 255, 255, 255, 255, 184, 15, 73,
    224, 255, 255, 255, 255, 184, 253, 64, 160, 255, 255, 255, 255, 185, 241, 52, 48, 255, 255,
    255, 255, 186, 222, 116, 32, 255, 255, 255, 255, 218, 56, 174, 48, 255, 255, 255, 255, 218,
    235, 250, 48, 255, 255, 255, 255, 220, 25, 225, 176, 255, 255, 255, 255, 220, 185, 89, 32,
    255, 255, 255, 255, 221, 251, 21, 48, 255, 255, 255, 255, 222, 155, 222, 32, 255, 255, 255,
    255, 223, 221, 154, 48, 255, 255, 255, 255, 224, 84, 51, 32, 255, 255, 255, 255, 244, 151,
    255, 176, 255, 255, 255, 255, 245, 5, 94, 32, 255, 255, 255, 255, 246, 192, 100, 48, 255, 255,
    255, 255, 247, 14, 30, 160, 255, 255, 255, 255, 248, 81, 44, 48, 255, 255, 255, 255, 248, 199,
    197, 32, 255, 255, 255, 255, 250, 10, 210, 176, 255, 255, 255, 255, 250, 168, 248, 160, 255,
    255, 255, 255, 251, 236, 6, 48, 255, 255, 255, 255, 252, 139, 125, 160, 0, 0, 0, 0, 29, 201,
    142, 48, 0, 0, 0, 0, 30, 120, 215, 160, 0, 0, 0, 0, 31, 160, 53, 176, 0, 0, 0, 0, 32, 51, 207,
    160, 0, 0, 0, 0, 33, 129, 105, 48, 0, 0, 0, 0, 34, 11, 200, 160, 0, 0, 0, 0, 35, 88, 16, 176,
    0, 0, 0, 0, 35, 226, 112, 32, 0, 0, 0, 0, 37, 55, 242, 176, 0, 0, 0, 0, 37, 212, 199, 32, 0,
    0, 0, 0, 55, 246, 198, 176, 0, 0, 0, 0, 56, 184, 133, 32, 0, 0, 0, 0, 57, 223, 227, 48, 0, 0,
    0, 0, 57, 233, 15, 160, 0, 0, 0, 0, 59, 200, 255, 176, 0, 0, 0, 0, 60, 111, 14, 160, 2, 1, 2,
    1, 2, 1, 2, 1, 2, 1, 2, 1, 2, 1, 2, 1, 2, 1, 2, 1, 2, 1, 2, 1, 2, 1, 2, 1, 2, 1, 2, 1, 2, 1,
    2, 1, 2, 1, 2, 255, 255, 223, 72, 0, 0, 255, 255, 227, 224, 1, 4, 255, 255, 213, 208, 0, 8,
    76, 77, 84, 0, 45, 48, 50, 0, 45, 48, 51, 0, 10, 60, 45, 48, 51, 62, 51, 10,
];

/// `America/Regina`.
#[verifier::opaque]
pub const AMERICA_REGINA: [u8; 638] = [
    84, 90, 105, 102, 50, 0, 0, 0, 0, 0, 0, 0, 0, 0, 0, 0, 0, 0, 0, 0, 0, 0, 0, 0, 0, 0, 0, 0, 0,
    0, 0, 0, 0, 0, 0, 0, 0, 0, 0, 1, 0, 0, 0, 1, 0, 0, 0, 0, 0, 0, 0, 84, 90, 105, 102, 50, 0, 0,
    0, 0, 0, 0, 0, 0, 0, 0, 0, 0, 0, 0, 0, 0, 0, 0, 0, 0, 0, 0, 0, 0, 0, 0, 0, 0, 0, 0, 53, 0, 0,
    0, 6, 0, 0, 0, 24, 255, 255, 255, 255, 134, 253, 147, 28, 255, 255, 255, 255, 158, 184, 175,
    144, 255, 255, 255, 255, 159, 187, 7, 128, 255, 255, 255, 255, 181, 101, 79, 240, 255, 255,
    255, 255, 182, 48, 72, 224, 255, 255, 255, 255, 183, 69, 49, 240, 255, 255, 255, 255, 184, 16,
    42, 224, 255, 255, 255, 255, 185, 37, 19, 240, 255, 255, 255, 255, 185, 240, 12, 224, 255,
    255, 255, 255, 187, 14, 48, 112, 255, 255, 255, 255, 187, 207, 238, 224, 255, 255, 255, 255,
    188, 238, 18, 112, 255, 255, 255, 255, 189, 185, 11, 96, 255, 255, 255, 255, 194, 114, 8, 240,
    255, 255, 255, 255, 195, 97, 235, 224, 255, 255, 255, 255, 196, 81, 234, 240, 255, 255, 255,
    255, 197, 56, 147, 96, 255, 255, 255, 255, 198, 49, 204, 240, 255, 255, 255, 255, 199, 33,
    175, 224, 255, 255, 255, 255, 200, 26, 233, 112, 255, 255, 255, 255, 201, 10, 204, 96, 255,
    255, 255, 255, 201, 250, 203, 112, 255, 255, 255, 255, 202, 234, 174, 96, 255, 255, 255, 255,
    203, 137, 12, 144, 255, 255, 255, 255, 210, 35, 244, 112, 255, 255, 255, 255, 210, 97, 24, 0,
    255, 255, 255, 255, 211, 99, 140, 16, 255, 255, 255, 255, 212, 83, 111, 0, 255, 255, 255, 255,
    213, 85, 227, 16, 255, 255, 255, 255, 214, 32, 220, 0, 255, 255, 255, 255, 215, 53, 197, 16,
    255, 255, 255, 255, 216, 0, 190, 0, 255, 255, 255, 255, 217, 21, 167, 16, 255, 255, 255, 255,
    217, 224, 160, 0, 255, 255, 255, 255, 218, 254, 195, 144, 255, 255, 255, 255, 219, 192, 130,
    0, 255, 255, 255, 255, 220, 222, 165, 144, 255, 255, 255, 255, 221, 169, 158, 128, 255, 255,
    255, 255, 222, 190, 135, 144, 255, 255, 255, 255, 223, 137, 128, 128, 255, 255, 255, 255, 224,
    158, 105, 144, 255, 255, 255, 255, 225, 105, 98, 128, 255, 255, 255, 255, 226, 126, 75, 144,
    255, 255, 255, 255, 227, 73, 68, 128, 255, 255, 255, 255, 228, 94, 45, 144, 255, 255, 255,
    255, 229, 41, 38, 128, 255, 255, 255, 255, 230, 71, 74, 16, 255, 255, 255, 255, 231, 18, 67,
    0, 255, 255, 255, 255, 232, 39, 44, 16, 255, 255, 255, 255, 232, 242, 37, 0, 255, 255, 255,
    255, 235, 230, 240, 16, 255, 255, 255, 255, 236, 214, 211, 0, 255, 255, 255, 255, 237, 198,
    210, 16, 2, 1, 2, 1, 2, 1, 2, 1, 2, 1, 2, 1, 2, 1, 2, 1, 2, 1, 2, 1, 2, 1, 2, 3, 4, 2, 1, 2,
    1, 2, 1, 2, 1, 2, 1, 2, 1, 2, 1, 2, 1, 2, 1, 2, 1, 2, 1, 2, 1, 2, 1, 2, 5, 255, 255, 157, 228,
    0, 0, 255, 255, 171, 160, 1, 4, 255, 255, 157, 144, 0, 8, 255, 255, 171, 160, 1, 12, 255, 255,
    171, 160, 1, 16, 255, 255, 171, 160, 0, 20, 76, 77, 84, 0, 77, 68, 84, 0, 77, 83, 84, 0, 77,
    87, 84, 0, 77, 80, 84, 0, 67, 83, 84, 0, 10, 67, 83, 84, 54, 10,
];

/// `America/Resolute`.
#[verifier::opaque]
pub const AMERICA_RESOLUTE: [u8; 807] = [
    84, 90, 105, 102, 50, 0, 0, 0, 0, 0, 0, 0, 0, 0, 0, 0, 0, 0, 0, 0, 0, 0, 0, 0, 0, 0, 0, 0, 0,
    0, 0, 0, 0, 0, 0, 0, 0, 0, 0, 1, 0, 0, 0, 1, 0, 0, 0, 0, 0, 0, 0, 84, 90, 105, 102, 50, 0, 0,
    0, 0, 0, 0, 0, 0, 0, 0, 0, 0, 0, 0, 0, 0, 0, 0, 0, 0, 0, 0, 0, 0, 0, 0, 0, 0, 0, 0, 72, 0, 0,
    0, 4, 0, 0, 0, 16, 255, 255, 255, 255, 213, 251, 129, 128, 0, 0, 0, 0, 4, 97, 11, 128, 0, 0,
    0, 0, 5, 80, 238, 112, 0, 0, 0, 0, 6, 64, 237, 128, 0, 0, 0, 0, 7, 48, 208, 112, 0, 0, 0, 0,
    8, 32, 207, 128, 0, 0, 0, 0, 9, 16, 178, 112, 0, 0, 0, 0, 10, 0, 177, 128, 0, 0, 0, 0, 10,
    240, 148, 112, 0, 0, 0, 0, 11, 224, 147, 128, 0, 0, 0, 0, 12, 217, 176, 240, 0, 0, 0, 0, 13,
    192, 117, 128, 0, 0, 0, 0, 14, 185, 146, 240, 0, 0, 0, 0, 15, 169, 146, 0, 0, 0, 0, 0, 16,
    153, 116, 240, 0, 0, 0, 0, 17, 137, 116, 0, 0, 0, 0, 0, 18, 121, 86, 240, 0, 0, 0, 0, 19, 105,
    86, 0, 0, 0, 0, 0, 20, 89, 56, 240, 0, 0, 0, 0, 21, 73, 56, 0, 0, 0, 0, 0, 22, 57, 26, 240, 0,
    0, 0, 0, 23, 41, 26, 0, 0, 0, 0, 0, 24, 34, 55, 112, 0, 0, 0, 0, 25, 8, 252, 0, 0, 0, 0, 0,
    26, 2, 25, 112, 0, 0, 0, 0, 26, 242, 24, 128, 0, 0, 0, 0, 27, 225, 251, 112, 0, 0, 0, 0, 28,
    209, 250, 128, 0, 0, 0, 0, 29, 193, 221, 112, 0, 0, 0, 0, 30, 177, 220, 128, 0, 0, 0, 0, 31,
    161, 191, 112, 0, 0, 0, 0, 32, 118, 15, 0, 0, 0, 0, 0, 33, 129, 161, 112, 0, 0, 0, 0, 34, 85,
    241, 0, 0, 0, 0, 0, 35, 106, 189, 240, 0, 0, 0, 0, 36, 53, 211, 0, 0, 0, 0, 0, 37, 74, 159,
    240, 0, 0, 0, 0, 38, 21, 181, 0, 0, 0, 0, 0, 39, 42, 129, 240, 0, 0, 0, 0, 39, 254, 209, 128,
    0, 0, 0, 0, 41, 10, 99, 240, 0, 0, 0, 0, 41, 222, 179, 128, 0, 0, 0, 0, 42, 234, 69, 240, 0,
    0, 0, 0, 43, 190, 149, 128, 0, 0, 0, 0, 44, 211, 98, 112, 0, 0, 0, 0, 45, 158, 119, 128, 0, 0,
    0, 0, 46, 179, 68, 112, 0, 0, 0, 0, 47, 126, 89, 128, 0, 0, 0, 0, 48, 147, 38, 112, 0, 0, 0,
    0, 49, 103, 118, 0, 0, 0, 0, 0, 50, 115, 8, 112, 0, 0, 0, 0, 51, 71, 88, 0, 0, 0, 0, 0, 52,
    82, 234, 112, 0, 0, 0, 0, 53, 39, 58, 0, 0, 0, 0, 0, 54, 50, 204, 112, 0, 0, 0, 0, 55, 7, 28,
    0, 0, 0, 0, 0, 56, 27, 232, 240, 0, 0, 0, 0, 56, 230, 254, 0, 0, 0, 0, 0, 57, 251, 202, 240,
    0, 0, 0, 0, 58, 198, 224, 0, 0, 0, 0, 0, 59, 219, 172, 240, 0, 0, 0, 0, 60, 175, 252, 128, 0,
    0, 0, 0, 61, 187, 142, 240, 0, 0, 0, 0, 62, 143, 222, 128, 0, 0, 0, 0, 63, 155, 112, 240, 0,
    0, 0, 0, 64, 111, 192, 128, 0, 0, 0, 0, 65, 132, 141, 112, 0, 0, 0, 0, 66, 79, 162, 128, 0, 0,
    0, 0, 67, 100, 111, 112, 0, 0, 0, 0, 68, 47, 132, 128, 0, 0, 0, 0, 69, 68, 81, 112, 0, 0, 0,
    0, 69, 243, 183, 0, 2, 1, 2, 1, 2, 1, 2, 1, 2, 1, 2, 1, 2, 1, 2, 1, 2, 1, 2, 1, 2, 1, 2, 1, 2,
    1, 2, 1, 2, 1, 2, 1, 2, 1, 2, 1, 2, 1, 2, 1, 2, 1, 2, 1, 2, 1, 2, 1, 2, 1, 2, 1, 2, 1, 2, 1,
    2, 1, 3, 1, 2, 1, 2, 1, 2, 1, 2, 1, 2, 1, 3, 1, 0, 0, 0, 0, 0, 0, 255, 255, 185, 176, 1, 4,
    255, 255, 171, 160, 0, 8, 255, 255, 185, 176, 0, 12, 45, 48, 48, 0, 67, 68, 84, 0, 67, 83, 84,
    0, 69, 83, 84, 0, 10, 67, 83, 84, 54, 67, 68, 84, 44, 77, 51, 46, 50, 46, 48, 44, 77, 49, 49,
    46, 49, 46, 48, 10,
];

/// `America/Rio_Branco`.
#[verifier::opaque]
pub const AMERICA_RIO_BRANCO: [u8; 418] = [
    84, 90, 105, 102, 50, 0, 0, 0, 0, 0, 0, 0, 0, 0, 0, 0, 0, 0, 0, 0, 0, 0, 0, 0, 0, 0, 0, 0, 0,
    0, 0, 0, 0, 0, 0, 0, 0, 0, 0, 1, 0, 0, 0, 1, 0, 0, 0, 0, 0, 0, 0, 84, 90, 105, 102, 50, 0, 0,
    0, 0, 0, 0, 0, 0, 0, 0, 0, 0, 0, 0, 0, 0, 0, 0, 0, 0, 0, 0, 0, 0, 0, 0, 0, 0, 0, 0, 31, 0, 0,
    0, 4, 0, 0, 0, 12, 255, 255, 255, 255, 150, 170, 134, 144, 255, 255, 255, 255, 184, 15, 102,
    0, 255, 255, 255, 255, 184, 253, 92, 192, 255, 255, 255, 255, 185, 241, 80, 80, 255, 255, 255,
    255, 186, 222, 144, 64, 255, 255, 255, 255, 218, 56, 202, 80, 255, 255, 255, 255, 218, 236,
    22, 80, 255, 255, 255, 255, 220, 25, 253, 208, 255, 255, 255, 255, 220, 185, 117, 64, 255,
    255, 255, 255, 221, 251, 49, 80, 255, 255, 255, 255, 222, 155, 250, 64, 255, 255, 255, 255,
    223, 221, 182, 80, 255, 255, 255, 255, 224, 84, 79, 64, 255, 255, 255, 255, 244, 152, 27, 208,
    255, 255, 255, 255, 245, 5, 122, 64, 255, 255, 255, 255, 246, 192, 128, 80, 255, 255, 255,
    255, 247, 14, 58, 192, 255, 255, 255, 255, 248, 81, 72, 80, 255, 255, 255, 255, 248, 199, 225,
    64, 255, 255, 255, 255, 250, 10, 238, 208, 255, 255, 255, 255, 250, 169, 20, 192, 255, 255,
    255, 255, 251, 236, 34, 80, 255, 255, 255, 255, 252, 139, 153, 192, 0, 0, 0, 0, 29, 201, 170,
    80, 0, 0, 0, 0, 30, 120, 243, 192, 0, 0, 0, 0, 31, 160, 81, 208, 0, 0, 0, 0, 32, 51, 235, 192,
    0, 0, 0, 0, 33, 129, 133, 80, 0, 0, 0, 0, 34, 11, 228, 192, 0, 0, 0, 0, 72, 96, 127, 80, 0, 0,
    0, 0, 82, 127, 4, 192, 2, 1, 2, 1, 2, 1, 2, 1, 2, 1, 2, 1, 2, 1, 2, 1, 2, 1, 2, 1, 2, 1, 2, 1,
    2, 1, 2, 1, 2, 3, 2, 255, 255, 192, 112, 0, 0, 255, 255, 199, 192, 1, 4, 255, 255, 185, 176,
    0, 8, 255, 255, 199, 192, 0, 4, 76, 77, 84, 0, 45, 48, 52, 0, 45, 48, 53, 0, 10, 60, 45, 48,
    53, 62, 53, 10,
];

/// `America/Santarem`.
#[verifier::opaque]
pub const AMERICA_SANTAREM: [u8; 409] = [
    84, 90, 105, 102, 50, 0, 0, 0, 0, 0, 0, 0, 0, 0, 0, 0, 0, 0, 0, 0, 0, 0, 0, 0, 0, 0, 0, 0, 0,
    0, 0, 0, 0, 0, 0, 0, 0, 0, 0, 1, 0, 0, 0, 1, 0, 0, 0, 0, 0, 0, 0, 84, 90, 105, 102, 50, 0, 0,
    0, 0, 0, 0, 0, 0, 0, 0, 0, 0, 0, 0, 0, 0, 0, 0, 0, 0, 0, 0, 0, 0, 0, 0, 0, 0, 0, 0, 30, 0, 0,
    0, 4, 0, 0, 0, 12, 255, 255, 255, 255, 150, 170, 122, 72, 255, 255, 255, 255, 184, 15, 87,
    240, 255, 255, 255, 255, 184, 253, 78, 176, 255, 255, 255, 255, 185, 241, 66, 64, 255, 255,
    255, 255, 186, 222, 130, 48, 255, 255, 255, 255, 218, 56, 188, 64, 255, 255, 255, 255, 218,
    236, 8, 64, 255, 255, 255, 255, 220, 25, 239, 192, 255, 255, 255, 255, 220, 185, 103, 48, 255,
    255, 255, 255, 221, 251, 35, 64, 255, 255, 255, 255, 222, 155, 236, 48, 255, 255, 255, 255,
    223, 221, 168, 64, 255, 255, 255, 255, 224, 84, 65, 48, 255, 255, 255, 255, 244, 152, 13, 192,
    255, 255, 255, 255, 245, 5, 108, 48, 255, 255, 255, 255, 246, 192, 114, 64, 255, 255, 255,
    255, 247, 14, 44, 176, 255, 255, 255, 255, 248, 81, 58, 64, 255, 255, 255, 255, 248, 199, 211,
    48, 255, 255, 255, 255, 250, 10, 224, 192, 255, 255, 255, 255, 250, 169, 6, 176, 255, 255,
    255, 255, 251, 236, 20, 64, 255, 255, 255, 255, 252, 139, 139, 176, 0, 0, 0, 0, 29, 201, 156,
    64, 0, 0, 0, 0, 30, 120, 229, 176, 0, 0, 0, 0, 31, 160, 67, 192, 0, 0, 0, 0, 32, 51, 221, 176,
    0, 0, 0, 0, 33, 129, 119, 64, 0, 0, 0, 0, 34, 11, 214, 176, 0, 0, 0, 0, 72, 96, 113, 64, 2, 1,
    2, 1, 2, 1, 2, 1, 2, 1, 2, 1, 2, 1, 2, 1, 2, 1, 2, 1, 2, 1, 2, 1, 2, 1, 2, 1, 2, 3, 255, 255,
    204, 184, 0, 0, 255, 255, 213, 208, 1, 4, 255, 255, 199, 192, 0, 8, 255, 255, 213, 208, 0, 4,
    76, 77, 84, 0, 45, 48, 51, 0, 45, 48, 52, 0, 10, 60, 45, 48, 51, 62, 51, 10,
];

/// `America/Santiago`.
#[verifier::opaque]
pub const AMERICA_SANTIAGO: [u8; 1354] = [
    84, 90, 105, 102, 51, 0, 0, 0, 0, 0, 0, 0, 0, 0, 0, 0, 0, 0, 0, 0, 0, 0, 0, 0, 0, 0, 0, 0, 0,
    0, 0, 0, 0, 0, 0, 0, 0, 0, 0, 1, 0, 0, 0, 1, 0, 0, 0, 0, 0, 0, 0, 84, 90, 105, 102, 51, 0, 0,
    0, 0, 0, 0, 0, 0, 0, 0, 0, 0, 0, 0, 0, 0, 0, 0, 0, 0, 0, 0, 0, 0, 0, 0, 0, 0, 0, 0, 130, 0, 0,
    0, 6, 0, 0, 0, 20, 255, 255, 255, 255, 105, 135, 29, 197, 255, 255, 255, 255, 143, 48, 71, 69,
    255, 255, 255, 255, 155, 92, 229, 80, 255, 255, 255, 255, 159, 124, 226, 197, 255, 255, 255,
    255, 161, 0, 113, 192, 255, 255, 255, 255, 176, 94, 119, 197, 255, 255, 255, 255, 177, 119,
    61, 64, 255, 255, 255, 255, 178, 65, 0, 208, 255, 255, 255, 255, 179, 88, 112, 192, 255, 255,
    255, 255, 180, 34, 52, 80, 255, 255, 255, 255, 181, 57, 164, 64, 255, 255, 255, 255, 182, 3,
    103, 208, 255, 255, 255, 255, 183, 26, 215, 192, 255, 255, 255, 255, 183, 228, 155, 80, 255,
    255, 255, 255, 184, 253, 92, 192, 255, 255, 255, 255, 185, 199, 32, 80, 255, 255, 255, 255,
    204, 28, 110, 64, 255, 255, 255, 255, 204, 108, 231, 208, 255, 255, 255, 255, 211, 220, 143,
    192, 255, 255, 255, 255, 212, 23, 213, 48, 255, 255, 255, 255, 213, 51, 85, 192, 255, 255,
    255, 255, 213, 118, 146, 64, 255, 255, 255, 255, 253, 209, 60, 64, 255, 255, 255, 255, 254,
    146, 250, 176, 255, 255, 255, 255, 255, 204, 205, 192, 0, 0, 0, 0, 0, 114, 220, 176, 0, 0, 0,
    0, 1, 117, 80, 192, 0, 0, 0, 0, 2, 64, 73, 176, 0, 0, 0, 0, 3, 85, 50, 192, 0, 0, 0, 0, 4, 32,
    43, 176, 0, 0, 0, 0, 5, 62, 79, 64, 0, 0, 0, 0, 6, 0, 13, 176, 0, 0, 0, 0, 7, 11, 188, 64, 0,
    0, 0, 0, 7, 223, 239, 176, 0, 0, 0, 0, 8, 254, 19, 64, 0, 0, 0, 0, 9, 191, 209, 176, 0, 0, 0,
    0, 10, 221, 245, 64, 0, 0, 0, 0, 11, 168, 238, 48, 0, 0, 0, 0, 12, 189, 215, 64, 0, 0, 0, 0,
    13, 136, 208, 48, 0, 0, 0, 0, 14, 157, 185, 64, 0, 0, 0, 0, 15, 104, 178, 48, 0, 0, 0, 0, 16,
    134, 213, 192, 0, 0, 0, 0, 17, 72, 148, 48, 0, 0, 0, 0, 18, 102, 183, 192, 0, 0, 0, 0, 19, 40,
    118, 48, 0, 0, 0, 0, 20, 70, 153, 192, 0, 0, 0, 0, 21, 17, 146, 176, 0, 0, 0, 0, 22, 38, 123,
    192, 0, 0, 0, 0, 22, 241, 116, 176, 0, 0, 0, 0, 24, 6, 93, 192, 0, 0, 0, 0, 24, 209, 86, 176,
    0, 0, 0, 0, 25, 230, 63, 192, 0, 0, 0, 0, 26, 177, 56, 176, 0, 0, 0, 0, 27, 207, 92, 64, 0, 0,
    0, 0, 28, 145, 26, 176, 0, 0, 0, 0, 29, 175, 62, 64, 0, 0, 0, 0, 30, 112, 252, 176, 0, 0, 0,
    0, 31, 143, 32, 64, 0, 0, 0, 0, 32, 127, 3, 48, 0, 0, 0, 0, 33, 111, 2, 64, 0, 0, 0, 0, 34,
    57, 251, 48, 0, 0, 0, 0, 35, 78, 228, 64, 0, 0, 0, 0, 36, 25, 221, 48, 0, 0, 0, 0, 37, 56, 0,
    192, 0, 0, 0, 0, 37, 249, 191, 48, 0, 0, 0, 0, 38, 242, 248, 192, 0, 0, 0, 0, 39, 217, 161,
    48, 0, 0, 0, 0, 40, 247, 196, 192, 0, 0, 0, 0, 41, 194, 189, 176, 0, 0, 0, 0, 42, 215, 166,
    192, 0, 0, 0, 0, 43, 162, 159, 176, 0, 0, 0, 0, 44, 183, 136, 192, 0, 0, 0, 0, 45, 130, 129,
    176, 0, 0, 0, 0, 46, 151, 106, 192, 0, 0, 0, 0, 47, 98, 99, 176, 0, 0, 0, 0, 48, 128, 135, 64,
    0, 0, 0, 0, 49, 66, 69, 176, 0, 0, 0, 0, 50, 96, 105, 64, 0, 0, 0, 0, 51, 61, 215, 48, 0, 0,
    0, 0, 52, 64, 75, 64, 0, 0, 0, 0, 53, 11, 68, 48, 0, 0, 0, 0, 54, 13, 184, 64, 0, 0, 0, 0, 55,
    6, 213, 176, 0, 0, 0, 0, 56, 0, 15, 64, 0, 0, 0, 0, 56, 203, 8, 48, 0, 0, 0, 0, 57, 233, 43,
    192, 0, 0, 0, 0, 58, 170, 234, 48, 0, 0, 0, 0, 59, 201, 13, 192, 0, 0, 0, 0, 60, 138, 204, 48,
    0, 0, 0, 0, 61, 168, 239, 192, 0, 0, 0, 0, 62, 106, 174, 48, 0, 0, 0, 0, 63, 136, 209, 192, 0,
    0, 0, 0, 64, 83, 202, 176, 0, 0, 0, 0, 65, 104, 179, 192, 0, 0, 0, 0, 66, 51, 172, 176, 0, 0,
    0, 0, 67, 72, 149, 192, 0, 0, 0, 0, 68, 19, 142, 176, 0, 0, 0, 0, 69, 49, 178, 64, 0, 0, 0, 0,
    69, 243, 112, 176, 0, 0, 0, 0, 71, 17, 148, 64, 0, 0, 0, 0, 71, 239, 2, 48, 0, 0, 0, 0, 72,
    241, 118, 64, 0, 0, 0, 0, 73, 188, 111, 48, 0, 0, 0, 0, 74, 209, 88, 64, 0, 0, 0, 0, 75, 184,
    0, 176, 0, 0, 0, 0, 76, 177, 58, 64, 0, 0, 0, 0, 77, 198, 7, 48, 0, 0, 0, 0, 78, 80, 130, 192,
    0, 0, 0, 0, 79, 156, 174, 176, 0, 0, 0, 0, 80, 66, 217, 192, 0, 0, 0, 0, 81, 124, 144, 176, 0,
    0, 0, 0, 82, 43, 246, 64, 0, 0, 0, 0, 83, 92, 114, 176, 0, 0, 0, 0, 84, 11, 216, 64, 0, 0, 0,
    0, 87, 55, 230, 48, 0, 0, 0, 0, 87, 175, 236, 192, 0, 0, 0, 0, 89, 23, 200, 48, 0, 0, 0, 0,
    89, 143, 206, 192, 0, 0, 0, 0, 90, 247, 170, 48, 0, 0, 0, 0, 91, 111, 176, 192, 0, 0, 0, 0,
    92, 169, 103, 176, 0, 0, 0, 0, 93, 116, 124, 192, 0, 0, 0, 0, 94, 137, 73, 176, 0, 0, 0, 0,
    95, 84, 94, 192, 0, 0, 0, 0, 96, 105, 43, 176, 0, 0, 0, 0, 97, 52, 64, 192, 0, 0, 0, 0, 98,
    73, 13, 176, 0, 0, 0, 0, 99, 29, 93, 64, 0, 0, 0, 0, 100, 40, 239, 176, 1, 2, 1, 3, 1, 4, 2,
    4, 2, 4, 2, 4, 2, 4, 2, 3, 2, 3, 5, 4, 2, 3, 5, 3, 5, 3, 5, 3, 5, 3, 5, 3, 5, 3, 5, 3, 5, 3,
    5, 3, 5, 3, 5, 3, 5, 3, 5, 3, 5, 3, 5, 3, 5, 3, 5, 3, 5, 3, 5, 3, 5, 3, 5, 3, 5, 3, 5, 3, 5,
    3, 5, 3, 5, 3, 5, 3, 5, 3, 5, 3, 5, 3, 5, 3, 5, 3, 5, 3, 5, 3, 5, 3, 5, 3, 5, 3, 5, 3, 5, 3,
    5, 3, 5, 3, 5, 3, 5, 3, 5, 3, 5, 3, 5, 3, 5, 3, 5, 3, 5, 3, 5, 3, 5, 3, 5, 3, 5, 3, 5, 3, 255,
    255, 189, 187, 0, 0, 255, 255, 189, 187, 0, 4, 255, 255, 185, 176, 0, 8, 255, 255, 199, 192,
    0, 12, 255, 255, 199, 192, 1, 12, 255, 255, 213, 208, 1, 16, 76, 77, 84, 0, 83, 77, 84, 0, 45,
    48, 53, 0, 45, 48, 52, 0, 45, 48, 51, 0, 10, 60, 45, 48, 52, 62, 52, 60, 45, 48, 51, 62, 44,
    77, 57, 46, 49, 46, 54, 47, 50, 52, 44, 77, 52, 46, 49, 46, 54, 47, 50, 52, 10,
];

/// `America/Santo_Domingo`.
#[verifier::opaque]
pub const AMERICA_SANTO_DOMINGO: [u8; 317] = [
    84, 90, 105, 102, 50, 0, 0, 0, 0, 0, 0, 0, 0, 0, 0, 0, 0, 0, 0, 0, 0, 0, 0, 0, 0, 0, 0, 0, 0,
    0, 0, 0, 0, 0, 0, 0, 0, 0, 0, 1, 0, 0, 0, 1, 0, 0, 0, 0, 0, 0, 0, 84, 90, 105, 102, 50, 0, 0,
    0, 0, 0, 0, 0, 0, 0, 0, 0, 0, 0, 0, 0, 0, 0, 0, 0, 0, 0, 0, 0, 0, 0, 0, 0, 0, 0, 0, 17, 0, 0,
    0, 6, 0, 0, 0, 27, 255, 255, 255, 255, 105, 135, 29, 8, 255, 255, 255, 255, 186, 223, 66, 96,
    255, 255, 255, 255, 250, 8, 75, 208, 255, 255, 255, 255, 250, 167, 195, 64, 255, 255, 255,
    255, 255, 167, 241, 208, 0, 0, 0, 0, 0, 67, 123, 200, 0, 0, 0, 0, 1, 135, 211, 208, 0, 0, 0,
    0, 1, 250, 127, 72, 0, 0, 0, 0, 3, 112, 240, 80, 0, 0, 0, 0, 3, 221, 4, 72, 0, 0, 0, 0, 5, 80,
    210, 80, 0, 0, 0, 0, 5, 191, 137, 72, 0, 0, 0, 0, 7, 48, 180, 80, 0, 0, 0, 0, 7, 160, 188,
    200, 0, 0, 0, 0, 9, 16, 150, 80, 0, 0, 0, 0, 57, 251, 188, 224, 0, 0, 0, 0, 58, 41, 225, 96,
    1, 3, 2, 3, 4, 3, 4, 3, 4, 3, 4, 3, 4, 3, 5, 3, 5, 255, 255, 190, 120, 0, 0, 255, 255, 190,
    96, 0, 4, 255, 255, 199, 192, 1, 9, 255, 255, 185, 176, 0, 13, 255, 255, 192, 184, 1, 17, 255,
    255, 199, 192, 0, 23, 76, 77, 84, 0, 83, 68, 77, 84, 0, 69, 68, 84, 0, 69, 83, 84, 0, 45, 48,
    52, 51, 48, 0, 65, 83, 84, 0, 10, 65, 83, 84, 52, 10,
];

/// `America/Sao_Paulo`.
#[verifier::opaque]
pub const AMERICA_SAO_PAULO: [u8; 952] = [
    84, 90, 105, 102, 50, 0, 0, 0, 0, 0, 0, 0, 0, 0, 0, 0, 0, 0, 0, 0, 0, 0, 0, 0, 0, 0, 0, 0, 0,
    0, 0, 0, 0, 0, 0, 0, 0, 0, 0, 1, 0, 0, 0, 1, 0, 0, 0, 0, 0, 0, 0, 84, 90, 105, 102, 50, 0, 0,
    0, 0, 0, 0, 0, 0, 0, 0, 0, 0, 0, 0, 0, 0, 0, 0, 0, 0, 0, 0, 0, 0, 0, 0, 0, 0, 0, 0, 91, 0, 0,
    0, 3, 0, 0, 0, 12, 255, 255, 255, 255, 150, 170, 114, 180, 255, 255, 255, 255, 184, 15, 73,
    224, 255, 255, 255, 255, 184, 253, 64, 160, 255, 255, 255, 255, 185, 241, 52, 48, 255, 255,
    255, 255, 186, 222, 116, 32, 255, 255, 255, 255, 218, 56, 174, 48, 255, 255, 255, 255, 218,
    235, 250, 48, 255, 255, 255, 255, 220, 25, 225, 176, 255, 255, 255, 255, 220, 185, 89, 32,
    255, 255, 255, 255, 221, 251, 21, 48, 255, 255, 255, 255, 222, 155, 222, 32, 255, 255, 255,
    255, 223, 221, 154, 48, 255, 255, 255, 255, 224, 84, 51, 32, 255, 255, 255, 255, 244, 90, 9,
    48, 255, 255, 255, 255, 245, 5, 94, 32, 255, 255, 255, 255, 246, 192, 100, 48, 255, 255, 255,
    255, 247, 14, 30, 160, 255, 255, 255, 255, 248, 81, 44, 48, 255, 255, 255, 255, 248, 199, 197,
    32, 255, 255, 255, 255, 250, 10, 210, 176, 255, 255, 255, 255, 250, 168, 248, 160, 255, 255,
    255, 255, 251, 236, 6, 48, 255, 255, 255, 255, 252, 139, 125, 160, 0, 0, 0, 0, 29, 201, 142,
    48, 0, 0, 0, 0, 30, 120, 215, 160, 0, 0, 0, 0, 31, 160, 53, 176, 0, 0, 0, 0, 32, 51, 207, 160,
    0, 0, 0, 0, 33, 129, 105, 48, 0, 0, 0, 0, 34, 11, 200, 160, 0, 0, 0, 0, 35, 88, 16, 176, 0, 0,
    0, 0, 35, 226, 112, 32, 0, 0, 0, 0, 37, 55, 242, 176, 0, 0, 0, 0, 37, 212, 199, 32, 0, 0, 0,
    0, 39, 33, 15, 48, 0, 0, 0, 0, 39, 189, 227, 160, 0, 0, 0, 0, 41, 0, 241, 48, 0, 0, 0, 0, 41,
    148, 139, 32, 0, 0, 0, 0, 42, 234, 13, 176, 0, 0, 0, 0, 43, 107, 50, 160, 0, 0, 0, 0, 44, 192,
    181, 48, 0, 0, 0, 0, 45, 102, 196, 32, 0, 0, 0, 0, 46, 160, 151, 48, 0, 0, 0, 0, 47, 70, 166,
    32, 0, 0, 0, 0, 48, 128, 121, 48, 0, 0, 0, 0, 49, 29, 77, 160, 0, 0, 0, 0, 50, 87, 32, 176, 0,
    0, 0, 0, 51, 6, 106, 32, 0, 0, 0, 0, 52, 56, 84, 48, 0, 0, 0, 0, 52, 248, 193, 32, 0, 0, 0, 0,
    54, 32, 31, 48, 0, 0, 0, 0, 54, 207, 104, 160, 0, 0, 0, 0, 55, 246, 198, 176, 0, 0, 0, 0, 56,
    184, 133, 32, 0, 0, 0, 0, 57, 223, 227, 48, 0, 0, 0, 0, 58, 143, 44, 160, 0, 0, 0, 0, 59, 200,
    255, 176, 0, 0, 0, 0, 60, 111, 14, 160, 0, 0, 0, 0, 61, 196, 145, 48, 0, 0, 0, 0, 62, 78, 240,
    160, 0, 0, 0, 0, 63, 145, 254, 48, 0, 0, 0, 0, 64, 46, 210, 160, 0, 0, 0, 0, 65, 134, 248, 48,
    0, 0, 0, 0, 66, 23, 239, 32, 0, 0, 0, 0, 67, 81, 194, 48, 0, 0, 0, 0, 67, 247, 209, 32, 0, 0,
    0, 0, 69, 77, 83, 176, 0, 0, 0, 0, 69, 224, 237, 160, 0, 0, 0, 0, 71, 17, 134, 48, 0, 0, 0, 0,
    71, 183, 149, 32, 0, 0, 0, 0, 72, 250, 162, 176, 0, 0, 0, 0, 73, 151, 119, 32, 0, 0, 0, 0, 74,
    218, 132, 176, 0, 0, 0, 0, 75, 128, 147, 160, 0, 0, 0, 0, 76, 186, 102, 176, 0, 0, 0, 0, 77,
    96, 117, 160, 0, 0, 0, 0, 78, 154, 72, 176, 0, 0, 0, 0, 79, 73, 146, 32, 0, 0, 0, 0, 80, 131,
    101, 48, 0, 0, 0, 0, 81, 32, 57, 160, 0, 0, 0, 0, 82, 99, 71, 48, 0, 0, 0, 0, 83, 0, 27, 160,
    0, 0, 0, 0, 84, 67, 41, 48, 0, 0, 0, 0, 84, 233, 56, 32, 0, 0, 0, 0, 86, 35, 11, 48, 0, 0, 0,
    0, 86, 201, 26, 32, 0, 0, 0, 0, 88, 2, 237, 48, 0, 0, 0, 0, 88, 168, 252, 32, 0, 0, 0, 0, 89,
    226, 207, 48, 0, 0, 0, 0, 90, 136, 222, 32, 0, 0, 0, 0, 91, 222, 96, 176, 0, 0, 0, 0, 92, 104,
    192, 32, 2, 1, 2, 1, 2, 1, 2, 1, 2, 1, 2, 1, 2, 1, 2, 1, 2, 1, 2, 1, 2, 1, 2, 1, 2, 1, 2, 1,
    2, 1, 2, 1, 2, 1, 2, 1, 2, 1, 2, 1, 2, 1, 2, 1, 2, 1, 2, 1, 2, 1, 2, 1, 2, 1, 2, 1, 2, 1, 2,
    1, 2, 1, 2, 1, 2, 1, 2, 1, 2, 1, 2, 1, 2, 1, 2, 1, 2, 1, 2, 1, 2, 1, 2, 1, 2, 1, 2, 1, 2, 1,
    2, 255, 255, 212, 76, 0, 0, 255, 255, 227, 224, 1, 4, 255, 255, 213, 208, 0, 8, 76, 77, 84, 0,
    45, 48, 50, 0, 45, 48, 51, 0, 10, 60, 45, 48, 51, 62, 51, 10,
];

/// `America/Scoresbysund`.
#[verifier::opaque]
pub const AMERICA_SCORESBYSUND: [u8; 984] = [
    84, 90, 105, 102, 51, 0, 0, 0, 0, 0, 0, 0, 0, 0, 0, 0, 0, 0, 0, 0, 0, 0, 0, 0, 0, 0, 0, 0, 0,
    0, 0, 0, 0, 0, 0, 0, 0, 0, 0, 1, 0, 0, 0, 1, 0, 0, 0, 0, 0, 0, 0, 84, 90, 105, 102, 51, 0, 0,
    0, 0, 0, 0, 0, 0, 0, 0, 0, 0, 0, 0, 0, 0, 0, 0, 0, 0, 0, 0, 0, 0, 0, 0, 0, 0, 0, 0, 90, 0, 0,
    0, 5, 0, 0, 0, 16, 255, 255, 255, 255, 155, 128, 76, 24, 0, 0, 0, 0, 19, 77, 110, 64, 0, 0, 0,
    0, 20, 52, 36, 192, 0, 0, 0, 0, 21, 35, 249, 160, 0, 0, 0, 0, 22, 19, 220, 144, 0, 0, 0, 0,
    23, 3, 205, 144, 0, 0, 0, 0, 23, 243, 190, 144, 0, 0, 0, 0, 24, 227, 175, 144, 0, 0, 0, 0, 25,
    211, 160, 144, 0, 0, 0, 0, 26, 195, 145, 144, 0, 0, 0, 0, 27, 188, 189, 16, 0, 0, 0, 0, 28,
    172, 174, 16, 0, 0, 0, 0, 29, 156, 159, 16, 0, 0, 0, 0, 30, 140, 144, 16, 0, 0, 0, 0, 31, 124,
    129, 16, 0, 0, 0, 0, 32, 108, 114, 16, 0, 0, 0, 0, 33, 92, 99, 16, 0, 0, 0, 0, 34, 76, 84, 16,
    0, 0, 0, 0, 35, 60, 69, 16, 0, 0, 0, 0, 36, 44, 54, 16, 0, 0, 0, 0, 37, 28, 39, 16, 0, 0, 0,
    0, 38, 12, 24, 16, 0, 0, 0, 0, 39, 5, 67, 144, 0, 0, 0, 0, 39, 245, 52, 144, 0, 0, 0, 0, 40,
    229, 37, 144, 0, 0, 0, 0, 41, 213, 22, 144, 0, 0, 0, 0, 42, 197, 7, 144, 0, 0, 0, 0, 43, 180,
    248, 144, 0, 0, 0, 0, 44, 164, 233, 144, 0, 0, 0, 0, 45, 148, 218, 144, 0, 0, 0, 0, 46, 132,
    203, 144, 0, 0, 0, 0, 47, 116, 188, 144, 0, 0, 0, 0, 48, 100, 173, 144, 0, 0, 0, 0, 49, 93,
    217, 16, 0, 0, 0, 0, 50, 114, 180, 16, 0, 0, 0, 0, 51, 61, 187, 16, 0, 0, 0, 0, 52, 82, 150,
    16, 0, 0, 0, 0, 53, 29, 157, 16, 0, 0, 0, 0, 54, 50, 120, 16, 0, 0, 0, 0, 54, 253, 127, 16, 0,
    0, 0, 0, 56, 27, 148, 144, 0, 0, 0, 0, 56, 221, 97, 16, 0, 0, 0, 0, 57, 251, 118, 144, 0, 0,
    0, 0, 58, 189, 67, 16, 0, 0, 0, 0, 59, 219, 88, 144, 0, 0, 0, 0, 60, 166, 95, 144, 0, 0, 0, 0,
    61, 187, 58, 144, 0, 0, 0, 0, 62, 134, 65, 144, 0, 0, 0, 0, 63, 155, 28, 144, 0, 0, 0, 0, 64,
    102, 35, 144, 0, 0, 0, 0, 65, 132, 57, 16, 0, 0, 0, 0, 66, 70, 5, 144, 0, 0, 0, 0, 67, 100,
    27, 16, 0, 0, 0, 0, 68, 37, 231, 144, 0, 0, 0, 0, 69, 67, 253, 16, 0, 0, 0, 0, 70, 5, 201,
    144, 0, 0, 0, 0, 71, 35, 223, 16, 0, 0, 0, 0, 71, 238, 230, 16, 0, 0, 0, 0, 73, 3, 193, 16, 0,
    0, 0, 0, 73, 206, 200, 16, 0, 0, 0, 0, 74, 227, 163, 16, 0, 0, 0, 0, 75, 174, 170, 16, 0, 0,
    0, 0, 76, 204, 191, 144, 0, 0, 0, 0, 77, 142, 140, 16, 0, 0, 0, 0, 78, 172, 161, 144, 0, 0, 0,
    0, 79, 110, 110, 16, 0, 0, 0, 0, 80, 140, 131, 144, 0, 0, 0, 0, 81, 87, 138, 144, 0, 0, 0, 0,
    82, 108, 101, 144, 0, 0, 0, 0, 83, 55, 108, 144, 0, 0, 0, 0, 84, 76, 71, 144, 0, 0, 0, 0, 85,
    23, 78, 144, 0, 0, 0, 0, 86, 44, 41, 144, 0, 0, 0, 0, 86, 247, 48, 144, 0, 0, 0, 0, 88, 21,
    70, 16, 0, 0, 0, 0, 88, 215, 18, 144, 0, 0, 0, 0, 89, 245, 40, 16, 0, 0, 0, 0, 90, 182, 244,
    144, 0, 0, 0, 0, 91, 213, 10, 16, 0, 0, 0, 0, 92, 160, 17, 16, 0, 0, 0, 0, 93, 180, 236, 16,
    0, 0, 0, 0, 94, 127, 243, 16, 0, 0, 0, 0, 95, 148, 206, 16, 0, 0, 0, 0, 96, 95, 213, 16, 0, 0,
    0, 0, 97, 125, 234, 144, 0, 0, 0, 0, 98, 63, 183, 16, 0, 0, 0, 0, 99, 93, 204, 144, 0, 0, 0,
    0, 100, 31, 153, 16, 0, 0, 0, 0, 101, 61, 174, 144, 0, 0, 0, 0, 102, 8, 181, 144, 1, 2, 1, 4,
    3, 4, 3, 4, 3, 4, 3, 4, 3, 4, 3, 4, 3, 4, 3, 4, 3, 4, 3, 4, 3, 4, 3, 4, 3, 4, 3, 4, 3, 4, 3,
    4, 3, 4, 3, 4, 3, 4, 3, 4, 3, 4, 3, 4, 3, 4, 3, 4, 3, 4, 3, 4, 3, 4, 3, 4, 3, 4, 3, 4, 3, 4,
    3, 4, 3, 4, 3, 4, 3, 4, 3, 4, 3, 4, 3, 4, 3, 4, 3, 4, 3, 4, 3, 4, 3, 2, 255, 255, 235, 104, 0,
    0, 255, 255, 227, 224, 0, 4, 255, 255, 241, 240, 1, 8, 255, 255, 241, 240, 0, 8, 0, 0, 0, 0,
    1, 12, 76, 77, 84, 0, 45, 48, 50, 0, 45, 48, 49, 0, 43, 48, 48, 0, 10, 60, 45, 48, 50, 62, 50,
    60, 45, 48, 49, 62, 44, 77, 51, 46, 53, 46, 48, 47, 45, 49, 44, 77, 49, 48, 46, 53, 46, 48,
    47, 48, 10,
];

/// `America/Sitka`.
#[verifier::opaque]
pub const AMERICA_SITKA: [u8; 956] = [
    84, 90, 105, 102, 50, 0, 0, 0, 0, 0, 0, 0, 0, 0, 0, 0, 0, 0, 0, 0, 0, 0, 0, 0, 0, 0, 0, 0, 0,
    0, 0, 0, 0, 0, 0, 0, 0, 0, 0, 1, 0, 0, 0, 1, 0, 0, 0, 0, 0, 0, 0, 84, 90, 105, 102, 50, 0, 0,
    0, 0, 0, 0, 0, 0, 0, 0, 0, 0, 0, 0, 0, 0, 0, 0, 0, 0, 0, 0, 0, 0, 0, 0, 0, 0, 0, 0, 83, 0, 0,
    0, 9, 0, 0, 0, 34, 255, 255, 255, 255, 63, 194, 253, 209, 255, 255, 255, 255, 125, 135, 51,
    153, 255, 255, 255, 255, 203, 137, 26, 160, 255, 255, 255, 255, 210, 35, 244, 112, 255, 255,
    255, 255, 210, 97, 38, 16, 255, 255, 255, 255, 254, 184, 71, 32, 255, 255, 255, 255, 255, 168,
    42, 16, 0, 0, 0, 0, 0, 152, 41, 32, 0, 0, 0, 0, 1, 136, 12, 16, 0, 0, 0, 0, 2, 120, 11, 32, 0,
    0, 0, 0, 3, 113, 40, 144, 0, 0, 0, 0, 4, 97, 39, 160, 0, 0, 0, 0, 5, 81, 10, 144, 0, 0, 0, 0,
    6, 65, 9, 160, 0, 0, 0, 0, 7, 48, 236, 144, 0, 0, 0, 0, 7, 141, 67, 160, 0, 0, 0, 0, 9, 16,
    206, 144, 0, 0, 0, 0, 9, 173, 191, 32, 0, 0, 0, 0, 10, 240, 176, 144, 0, 0, 0, 0, 11, 224,
    175, 160, 0, 0, 0, 0, 12, 217, 205, 16, 0, 0, 0, 0, 13, 192, 145, 160, 0, 0, 0, 0, 14, 185,
    175, 16, 0, 0, 0, 0, 15, 169, 174, 32, 0, 0, 0, 0, 16, 153, 145, 16, 0, 0, 0, 0, 17, 137, 144,
    32, 0, 0, 0, 0, 18, 121, 115, 16, 0, 0, 0, 0, 19, 105, 114, 32, 0, 0, 0, 0, 20, 89, 85, 16, 0,
    0, 0, 0, 21, 73, 84, 32, 0, 0, 0, 0, 22, 57, 55, 16, 0, 0, 0, 0, 23, 41, 54, 32, 0, 0, 0, 0,
    24, 34, 83, 144, 0, 0, 0, 0, 25, 9, 24, 32, 0, 0, 0, 0, 26, 2, 53, 144, 0, 0, 0, 0, 26, 43,
    20, 16, 0, 0, 0, 0, 26, 242, 66, 176, 0, 0, 0, 0, 27, 226, 37, 160, 0, 0, 0, 0, 28, 210, 36,
    176, 0, 0, 0, 0, 29, 194, 7, 160, 0, 0, 0, 0, 30, 178, 6, 176, 0, 0, 0, 0, 31, 161, 233, 160,
    0, 0, 0, 0, 32, 118, 57, 48, 0, 0, 0, 0, 33, 129, 203, 160, 0, 0, 0, 0, 34, 86, 27, 48, 0, 0,
    0, 0, 35, 106, 232, 32, 0, 0, 0, 0, 36, 53, 253, 48, 0, 0, 0, 0, 37, 74, 202, 32, 0, 0, 0, 0,
    38, 21, 223, 48, 0, 0, 0, 0, 39, 42, 172, 32, 0, 0, 0, 0, 39, 254, 251, 176, 0, 0, 0, 0, 41,
    10, 142, 32, 0, 0, 0, 0, 41, 222, 221, 176, 0, 0, 0, 0, 42, 234, 112, 32, 0, 0, 0, 0, 43, 190,
    191, 176, 0, 0, 0, 0, 44, 211, 140, 160, 0, 0, 0, 0, 45, 158, 161, 176, 0, 0, 0, 0, 46, 179,
    110, 160, 0, 0, 0, 0, 47, 126, 131, 176, 0, 0, 0, 0, 48, 147, 80, 160, 0, 0, 0, 0, 49, 103,
    160, 48, 0, 0, 0, 0, 50, 115, 50, 160, 0, 0, 0, 0, 51, 71, 130, 48, 0, 0, 0, 0, 52, 83, 20,
    160, 0, 0, 0, 0, 53, 39, 100, 48, 0, 0, 0, 0, 54, 50, 246, 160, 0, 0, 0, 0, 55, 7, 70, 48, 0,
    0, 0, 0, 56, 28, 19, 32, 0, 0, 0, 0, 56, 231, 40, 48, 0, 0, 0, 0, 57, 251, 245, 32, 0, 0, 0,
    0, 58, 199, 10, 48, 0, 0, 0, 0, 59, 219, 215, 32, 0, 0, 0, 0, 60, 176, 38, 176, 0, 0, 0, 0,
    61, 187, 185, 32, 0, 0, 0, 0, 62, 144, 8, 176, 0, 0, 0, 0, 63, 155, 155, 32, 0, 0, 0, 0, 64,
    111, 234, 176, 0, 0, 0, 0, 65, 132, 183, 160, 0, 0, 0, 0, 66, 79, 204, 176, 0, 0, 0, 0, 67,
    100, 153, 160, 0, 0, 0, 0, 68, 47, 174, 176, 0, 0, 0, 0, 69, 68, 123, 160, 0, 0, 0, 0, 69,
    243, 225, 48, 1, 2, 3, 4, 2, 5, 2, 5, 2, 5, 2, 5, 2, 5, 2, 5, 2, 5, 2, 5, 2, 5, 2, 5, 2, 5, 2,
    5, 2, 5, 2, 5, 2, 5, 6, 8, 7, 8, 7, 8, 7, 8, 7, 8, 7, 8, 7, 8, 7, 8, 7, 8, 7, 8, 7, 8, 7, 8,
    7, 8, 7, 8, 7, 8, 7, 8, 7, 8, 7, 8, 7, 8, 7, 8, 7, 8, 7, 8, 7, 8, 7, 8, 7, 0, 0, 210, 167, 0,
    0, 255, 255, 129, 39, 0, 0, 255, 255, 143, 128, 0, 4, 255, 255, 157, 144, 1, 8, 255, 255, 157,
    144, 1, 12, 255, 255, 157, 144, 1, 16, 255, 255, 129, 112, 0, 20, 255, 255, 143, 128, 1, 24,
    255, 255, 129, 112, 0, 29, 76, 77, 84, 0, 80, 83, 84, 0, 80, 87, 84, 0, 80, 80, 84, 0, 80, 68,
    84, 0, 89, 83, 84, 0, 65, 75, 68, 84, 0, 65, 75, 83, 84, 0, 10, 65, 75, 83, 84, 57, 65, 75,
    68, 84, 44, 77, 51, 46, 50, 46, 48, 44, 77, 49, 49, 46, 49, 46, 48, 10,
];

/// `America/St_Johns`.
#[verifier::opaque]
pub const AMERICA_ST_JOHNS: [u8; 1878] = [
    84, 90, 105, 102, 50, 0, 0, 0, 0, 0, 0, 0, 0, 0, 0, 0, 0, 0, 0, 0, 0, 0, 0, 0, 0, 0, 0, 0, 0,
    0, 0, 0, 0, 0, 0, 0, 0, 0, 0, 1, 0, 0, 0, 1, 0, 0, 0, 0, 0, 0, 0, 84, 90, 105, 102, 50, 0, 0,
    0, 0, 0, 0, 0, 0, 0, 0, 0, 0, 0, 0, 0, 0, 0, 0, 0, 0, 0, 0, 0, 0, 0, 0, 0, 0, 0, 0, 187, 0, 0,
    0, 8, 0, 0, 0, 25, 255, 255, 255, 255, 94, 61, 52, 236, 255, 255, 255, 255, 156, 207, 98, 12,
    255, 255, 255, 255, 157, 164, 230, 252, 255, 255, 255, 255, 158, 184, 126, 140, 255, 255, 255,
    255, 159, 186, 214, 124, 255, 255, 255, 255, 160, 182, 136, 220, 255, 255, 255, 255, 161, 56,
    255, 76, 255, 255, 255, 255, 162, 149, 25, 92, 255, 255, 255, 255, 163, 132, 252, 76, 255,
    255, 255, 255, 164, 116, 251, 92, 255, 255, 255, 255, 165, 100, 222, 76, 255, 255, 255, 255,
    166, 94, 23, 220, 255, 255, 255, 255, 167, 68, 192, 76, 255, 255, 255, 255, 168, 61, 249, 220,
    255, 255, 255, 255, 169, 36, 162, 76, 255, 255, 255, 255, 170, 29, 219, 220, 255, 255, 255,
    255, 171, 4, 132, 76, 255, 255, 255, 255, 171, 253, 189, 220, 255, 255, 255, 255, 172, 228,
    102, 76, 255, 255, 255, 255, 173, 221, 159, 220, 255, 255, 255, 255, 174, 205, 130, 204, 255,
    255, 255, 255, 175, 189, 129, 220, 255, 255, 255, 255, 176, 173, 100, 204, 255, 255, 255, 255,
    177, 166, 158, 92, 255, 255, 255, 255, 178, 141, 70, 204, 255, 255, 255, 255, 179, 134, 128,
    92, 255, 255, 255, 255, 180, 109, 40, 204, 255, 255, 255, 255, 181, 102, 98, 92, 255, 255,
    255, 255, 182, 77, 10, 204, 255, 255, 255, 255, 183, 70, 68, 92, 255, 255, 255, 255, 184, 44,
    236, 204, 255, 255, 255, 255, 185, 38, 38, 92, 255, 255, 255, 255, 186, 22, 9, 76, 255, 255,
    255, 255, 187, 15, 66, 220, 255, 255, 255, 255, 187, 245, 235, 76, 255, 255, 255, 255, 188,
    239, 36, 220, 255, 255, 255, 255, 189, 213, 205, 76, 255, 255, 255, 255, 190, 158, 77, 108,
    255, 255, 255, 255, 190, 207, 6, 168, 255, 255, 255, 255, 191, 181, 175, 24, 255, 255, 255,
    255, 192, 184, 49, 56, 255, 255, 255, 255, 193, 121, 239, 168, 255, 255, 255, 255, 194, 152,
    19, 56, 255, 255, 255, 255, 195, 89, 209, 168, 255, 255, 255, 255, 196, 119, 245, 56, 255,
    255, 255, 255, 197, 57, 179, 168, 255, 255, 255, 255, 198, 97, 17, 184, 255, 255, 255, 255,
    199, 25, 149, 168, 255, 255, 255, 255, 200, 64, 243, 184, 255, 255, 255, 255, 201, 2, 178, 40,
    255, 255, 255, 255, 202, 32, 213, 184, 255, 255, 255, 255, 202, 226, 148, 40, 255, 255, 255,
    255, 204, 0, 183, 184, 255, 255, 255, 255, 210, 35, 244, 112, 255, 255, 255, 255, 210, 96,
    230, 200, 255, 255, 255, 255, 211, 136, 68, 216, 255, 255, 255, 255, 212, 74, 3, 72, 255, 255,
    255, 255, 213, 104, 38, 216, 255, 255, 255, 255, 214, 41, 229, 72, 255, 255, 255, 255, 215,
    72, 8, 216, 255, 255, 255, 255, 216, 9, 199, 72, 255, 255, 255, 255, 217, 39, 234, 216, 255,
    255, 255, 255, 217, 233, 169, 72, 255, 255, 255, 255, 219, 17, 7, 88, 255, 255, 255, 255, 219,
    210, 197, 200, 255, 255, 255, 255, 220, 222, 116, 88, 255, 255, 255, 255, 221, 169, 109, 72,
    255, 255, 255, 255, 222, 190, 86, 88, 255, 255, 255, 255, 223, 137, 79, 72, 255, 255, 255,
    255, 224, 158, 56, 88, 255, 255, 255, 255, 225, 105, 49, 72, 255, 255, 255, 255, 226, 126, 26,
    88, 255, 255, 255, 255, 227, 73, 19, 72, 255, 255, 255, 255, 228, 93, 252, 88, 255, 255, 255,
    255, 229, 40, 245, 72, 255, 255, 255, 255, 230, 71, 24, 216, 255, 255, 255, 255, 231, 18, 17,
    200, 255, 255, 255, 255, 232, 38, 250, 216, 255, 255, 255, 255, 232, 241, 243, 200, 255, 255,
    255, 255, 234, 6, 220, 216, 255, 255, 255, 255, 234, 209, 213, 200, 255, 255, 255, 255, 235,
    230, 190, 216, 255, 255, 255, 255, 236, 177, 183, 200, 255, 255, 255, 255, 237, 198, 160, 216,
    255, 255, 255, 255, 238, 191, 190, 72, 255, 255, 255, 255, 239, 175, 189, 88, 255, 255, 255,
    255, 240, 159, 160, 72, 255, 255, 255, 255, 241, 143, 159, 88, 255, 255, 255, 255, 242, 127,
    130, 72, 255, 255, 255, 255, 243, 111, 129, 88, 255, 255, 255, 255, 244, 95, 100, 72, 255,
    255, 255, 255, 245, 79, 99, 88, 255, 255, 255, 255, 246, 63, 70, 72, 255, 255, 255, 255, 247,
    47, 69, 88, 255, 255, 255, 255, 248, 40, 98, 200, 255, 255, 255, 255, 249, 15, 39, 88, 255,
    255, 255, 255, 250, 8, 68, 200, 255, 255, 255, 255, 250, 248, 67, 216, 255, 255, 255, 255,
    251, 232, 38, 200, 255, 255, 255, 255, 252, 216, 37, 216, 255, 255, 255, 255, 253, 200, 8,
    200, 255, 255, 255, 255, 254, 184, 7, 216, 255, 255, 255, 255, 255, 167, 234, 200, 0, 0, 0, 0,
    0, 151, 233, 216, 0, 0, 0, 0, 1, 135, 204, 200, 0, 0, 0, 0, 2, 119, 203, 216, 0, 0, 0, 0, 3,
    112, 233, 72, 0, 0, 0, 0, 4, 96, 232, 88, 0, 0, 0, 0, 5, 80, 203, 72, 0, 0, 0, 0, 6, 64, 202,
    88, 0, 0, 0, 0, 7, 48, 173, 72, 0, 0, 0, 0, 8, 32, 172, 88, 0, 0, 0, 0, 9, 16, 143, 72, 0, 0,
    0, 0, 10, 0, 142, 88, 0, 0, 0, 0, 10, 240, 113, 72, 0, 0, 0, 0, 11, 224, 112, 88, 0, 0, 0, 0,
    12, 217, 141, 200, 0, 0, 0, 0, 13, 192, 82, 88, 0, 0, 0, 0, 14, 185, 111, 200, 0, 0, 0, 0, 15,
    169, 110, 216, 0, 0, 0, 0, 16, 153, 81, 200, 0, 0, 0, 0, 17, 137, 80, 216, 0, 0, 0, 0, 18,
    121, 51, 200, 0, 0, 0, 0, 19, 105, 50, 216, 0, 0, 0, 0, 20, 89, 21, 200, 0, 0, 0, 0, 21, 73,
    20, 216, 0, 0, 0, 0, 22, 56, 247, 200, 0, 0, 0, 0, 23, 40, 246, 216, 0, 0, 0, 0, 24, 34, 20,
    72, 0, 0, 0, 0, 25, 8, 216, 216, 0, 0, 0, 0, 26, 1, 246, 72, 0, 0, 0, 0, 26, 241, 245, 88, 0,
    0, 0, 0, 27, 225, 216, 72, 0, 0, 0, 0, 28, 209, 215, 88, 0, 0, 0, 0, 29, 193, 186, 72, 0, 0,
    0, 0, 30, 177, 185, 88, 0, 0, 0, 0, 31, 161, 156, 72, 0, 0, 0, 0, 32, 117, 207, 244, 0, 0, 0,
    0, 33, 129, 98, 100, 0, 0, 0, 0, 34, 85, 177, 244, 0, 0, 0, 0, 35, 106, 112, 212, 0, 0, 0, 0,
    36, 53, 147, 244, 0, 0, 0, 0, 37, 74, 96, 228, 0, 0, 0, 0, 38, 21, 117, 244, 0, 0, 0, 0, 39,
    42, 66, 228, 0, 0, 0, 0, 39, 254, 146, 116, 0, 0, 0, 0, 41, 10, 36, 228, 0, 0, 0, 0, 41, 222,
    116, 116, 0, 0, 0, 0, 42, 234, 6, 228, 0, 0, 0, 0, 43, 190, 86, 116, 0, 0, 0, 0, 44, 211, 35,
    100, 0, 0, 0, 0, 45, 158, 56, 116, 0, 0, 0, 0, 46, 179, 5, 100, 0, 0, 0, 0, 47, 126, 26, 116,
    0, 0, 0, 0, 48, 146, 231, 100, 0, 0, 0, 0, 49, 103, 54, 244, 0, 0, 0, 0, 50, 114, 201, 100, 0,
    0, 0, 0, 51, 71, 24, 244, 0, 0, 0, 0, 52, 82, 171, 100, 0, 0, 0, 0, 53, 38, 250, 244, 0, 0, 0,
    0, 54, 50, 141, 100, 0, 0, 0, 0, 55, 6, 220, 244, 0, 0, 0, 0, 56, 27, 169, 228, 0, 0, 0, 0,
    56, 230, 190, 244, 0, 0, 0, 0, 57, 251, 139, 228, 0, 0, 0, 0, 58, 198, 160, 244, 0, 0, 0, 0,
    59, 219, 109, 228, 0, 0, 0, 0, 60, 175, 189, 116, 0, 0, 0, 0, 61, 187, 79, 228, 0, 0, 0, 0,
    62, 143, 159, 116, 0, 0, 0, 0, 63, 155, 49, 228, 0, 0, 0, 0, 64, 111, 129, 116, 0, 0, 0, 0,
    65, 132, 78, 100, 0, 0, 0, 0, 66, 79, 99, 116, 0, 0, 0, 0, 67, 100, 48, 100, 0, 0, 0, 0, 68,
    47, 69, 116, 0, 0, 0, 0, 69, 68, 18, 100, 0, 0, 0, 0, 69, 243, 119, 244, 0, 0, 0, 0, 71, 45,
    46, 228, 0, 0, 0, 0, 71, 211, 89, 244, 0, 0, 0, 0, 73, 13, 16, 228, 0, 0, 0, 0, 73, 179, 59,
    244, 0, 0, 0, 0, 74, 236, 242, 228, 0, 0, 0, 0, 75, 156, 88, 116, 0, 0, 0, 0, 76, 214, 15,
    100, 0, 0, 0, 0, 77, 124, 58, 116, 0, 0, 0, 0, 78, 175, 89, 168, 2, 1, 2, 1, 2, 1, 2, 1, 2, 1,
    2, 1, 2, 1, 2, 1, 2, 1, 2, 1, 2, 1, 2, 1, 2, 1, 2, 1, 2, 1, 2, 1, 2, 1, 2, 1, 2, 4, 3, 4, 3,
    4, 3, 4, 3, 4, 3, 4, 3, 4, 3, 4, 6, 5, 4, 3, 4, 3, 4, 3, 4, 3, 4, 3, 4, 3, 4, 3, 4, 3, 4, 3,
    4, 3, 4, 3, 4, 3, 4, 3, 4, 3, 4, 3, 4, 3, 4, 3, 4, 3, 4, 3, 4, 3, 4, 3, 4, 3, 4, 3, 4, 3, 4,
    3, 4, 3, 4, 3, 4, 3, 4, 3, 4, 3, 4, 3, 4, 3, 4, 3, 4, 3, 4, 3, 4, 3, 4, 3, 4, 3, 4, 3, 4, 3,
    4, 3, 4, 3, 4, 7, 4, 3, 4, 3, 4, 3, 4, 3, 4, 3, 4, 3, 4, 3, 4, 3, 4, 3, 4, 3, 4, 3, 4, 3, 4,
    3, 4, 3, 4, 3, 4, 3, 4, 3, 4, 3, 4, 3, 4, 3, 4, 3, 4, 3, 4, 3, 3, 255, 255, 206, 148, 0, 0,
    255, 255, 220, 164, 1, 4, 255, 255, 206, 148, 0, 8, 255, 255, 220, 216, 1, 4, 255, 255, 206,
    200, 0, 8, 255, 255, 220, 216, 1, 12, 255, 255, 220, 216, 1, 16, 255, 255, 234, 232, 1, 20,
    76, 77, 84, 0, 78, 68, 84, 0, 78, 83, 84, 0, 78, 80, 84, 0, 78, 87, 84, 0, 78, 68, 68, 84, 0,
    10, 78, 83, 84, 51, 58, 51, 48, 78, 68, 84, 44, 77, 51, 46, 50, 46, 48, 44, 77, 49, 49, 46,
    49, 46, 48, 10,
];

/// `America/Swift_Current`.
#[verifier::opaque]
pub const AMERICA_SWIFT_CURRENT: [u8; 368] = [
    84, 90, 105, 102, 50, 0, 0, 0, 0, 0, 0, 0, 0, 0, 0, 0, 0, 0, 0, 0, 0, 0, 0, 0, 0, 0, 0, 0, 0,
    0, 0, 0, 0, 0, 0, 0, 0, 0, 0, 1, 0, 0, 0, 1, 0, 0, 0, 0, 0, 0, 0, 84, 90, 105, 102, 50, 0, 0,
    0, 0, 0, 0, 0, 0, 0, 0, 0, 0, 0, 0, 0, 0, 0, 0, 0, 0, 0, 0, 0, 0, 0, 0, 0, 0, 0, 0, 23, 0, 0,
    0, 6, 0, 0, 0, 24, 255, 255, 255, 255, 134, 253, 150, 24, 255, 255, 255, 255, 158, 184, 175,
    144, 255, 255, 255, 255, 159, 187, 7, 128, 255, 255, 255, 255, 203, 137, 12, 144, 255, 255,
    255, 255, 210, 35, 244, 112, 255, 255, 255, 255, 210, 97, 24, 0, 255, 255, 255, 255, 211, 118,
    1, 16, 255, 255, 255, 255, 212, 83, 111, 0, 255, 255, 255, 255, 213, 85, 227, 16, 255, 255,
    255, 255, 214, 32, 220, 0, 255, 255, 255, 255, 215, 53, 197, 16, 255, 255, 255, 255, 216, 0,
    190, 0, 255, 255, 255, 255, 217, 21, 167, 16, 255, 255, 255, 255, 217, 224, 160, 0, 255, 255,
    255, 255, 232, 39, 44, 16, 255, 255, 255, 255, 233, 23, 15, 0, 255, 255, 255, 255, 235, 230,
    240, 16, 255, 255, 255, 255, 236, 214, 211, 0, 255, 255, 255, 255, 237, 198, 210, 16, 255,
    255, 255, 255, 238, 145, 203, 0, 255, 255, 255, 255, 239, 175, 238, 144, 255, 255, 255, 255,
    240, 113, 173, 0, 0, 0, 0, 0, 4, 97, 25, 144, 2, 1, 2, 3, 4, 2, 1, 2, 1, 2, 1, 2, 1, 2, 1, 2,
    1, 2, 1, 2, 1, 2, 5, 255, 255, 154, 232, 0, 0, 255, 255, 171, 160, 1, 4, 255, 255, 157, 144,
    0, 8, 255, 255, 171, 160, 1, 12, 255, 255, 171, 160, 1, 16, 255, 255, 171, 160, 0, 20, 76, 77,
    84, 0, 77, 68, 84, 0, 77, 83, 84, 0, 77, 87, 84, 0, 77, 80, 84, 0, 67, 83, 84, 0, 10, 67, 83,
    84, 54, 10,
];

/// `America/Tegucigalpa`.
#[verifier::opaque]
pub const AMERICA_TEGUCIGALPA: [u8; 194] = [
    84, 90, 105, 102, 50, 0, 0, 0, 0, 0, 0, 0, 0, 0, 0, 0, 0, 0, 0, 0, 0, 0, 0, 0, 0, 0, 0, 0, 0,
    0, 0, 0, 0, 0, 0, 0, 0, 0, 0, 1, 0, 0, 0, 1, 0, 0, 0, 0, 0, 0, 0, 84, 90, 105, 102, 50, 0, 0,
    0, 0, 0, 0, 0, 0, 0, 0, 0, 0, 0, 0, 0, 0, 0, 0, 0, 0, 0, 0, 0, 0, 0, 0, 0, 0, 0, 0, 7, 0, 0,
    0, 3, 0, 0, 0, 12, 255, 255, 255, 255, 164, 76, 75, 68, 0, 0, 0, 0, 32, 154, 220, 224, 0, 0,
    0, 0, 33, 92, 155, 80, 0, 0, 0, 0, 34, 122, 190, 224, 0, 0, 0, 0, 35, 60, 125, 80, 0, 0, 0, 0,
    68, 93, 140, 224, 0, 0, 0, 0, 68, 214, 200, 208, 2, 1, 2, 1, 2, 1, 2, 255, 255, 174, 60, 0, 0,
    255, 255, 185, 176, 1, 4, 255, 255, 171, 160, 0, 8, 76, 77, 84, 0, 67, 68, 84, 0, 67, 83, 84,
    0, 10, 67, 83, 84, 54, 10,
];

/// `America/Thule`.
#[verifier::opaque]
pub const AMERICA_THULE: [u8; 455] = [
    84, 90, 105, 102, 50, 0, 0, 0, 0, 0, 0, 0, 0, 0, 0, 0, 0, 0, 0, 0, 0, 0, 0, 0, 0, 0, 0, 0, 0,
    0, 0, 0, 0, 0, 0, 0, 0, 0, 0, 1, 0, 0, 0, 1, 0, 0, 0, 0, 0, 0, 0, 84, 90, 105, 102, 50, 0, 0,
    0, 0, 0, 0, 0, 0, 0, 0, 0, 0, 0, 0, 0, 0, 0, 0, 0, 0, 0, 0, 0, 0, 0, 0, 0, 0, 0, 0, 34, 0, 0,
    0, 3, 0, 0, 0, 12, 255, 255, 255, 255, 155, 128, 119, 252, 0, 0, 0, 0, 39, 245, 122, 224, 0,
    0, 0, 0, 40, 229, 93, 208, 0, 0, 0, 0, 41, 213, 92, 224, 0, 0, 0, 0, 42, 197, 63, 208, 0, 0,
    0, 0, 43, 190, 121, 96, 0, 0, 0, 0, 44, 211, 70, 80, 0, 0, 0, 0, 45, 158, 91, 96, 0, 0, 0, 0,
    46, 179, 40, 80, 0, 0, 0, 0, 47, 126, 61, 96, 0, 0, 0, 0, 48, 147, 10, 80, 0, 0, 0, 0, 49,
    103, 89, 224, 0, 0, 0, 0, 50, 114, 236, 80, 0, 0, 0, 0, 51, 71, 59, 224, 0, 0, 0, 0, 52, 82,
    206, 80, 0, 0, 0, 0, 53, 39, 29, 224, 0, 0, 0, 0, 54, 50, 176, 80, 0, 0, 0, 0, 55, 6, 255,
    224, 0, 0, 0, 0, 56, 27, 204, 208, 0, 0, 0, 0, 56, 230, 225, 224, 0, 0, 0, 0, 57, 251, 174,
    208, 0, 0, 0, 0, 58, 198, 195, 224, 0, 0, 0, 0, 59, 219, 144, 208, 0, 0, 0, 0, 60, 175, 224,
    96, 0, 0, 0, 0, 61, 187, 114, 208, 0, 0, 0, 0, 62, 143, 194, 96, 0, 0, 0, 0, 63, 155, 84, 208,
    0, 0, 0, 0, 64, 111, 164, 96, 0, 0, 0, 0, 65, 132, 113, 80, 0, 0, 0, 0, 66, 79, 134, 96, 0, 0,
    0, 0, 67, 100, 83, 80, 0, 0, 0, 0, 68, 47, 104, 96, 0, 0, 0, 0, 69, 68, 53, 80, 0, 0, 0, 0,
    69, 243, 154, 224, 2, 1, 2, 1, 2, 1, 2, 1, 2, 1, 2, 1, 2, 1, 2, 1, 2, 1, 2, 1, 2, 1, 2, 1, 2,
    1, 2, 1, 2, 1, 2, 1, 2, 1, 255, 255, 191, 132, 0, 0, 255, 255, 213, 208, 1, 4, 255, 255, 199,
    192, 0, 8, 76, 77, 84, 0, 65, 68, 84, 0, 65, 83, 84, 0, 10, 65, 83, 84, 52, 65, 68, 84, 44,
    77, 51, 46, 50, 46, 48, 44, 77, 49, 49, 46, 49, 46, 48, 10,
];

/// `America/Tijuana`.
#[verifier::opaque]
pub const AMERICA_TIJUANA: [u8; 1367] = [
    84, 90, 105, 102, 50, 0, 0, 0, 0, 0, 0, 0, 0, 0, 0, 0, 0, 0, 0, 0, 0, 0, 0, 0, 0, 0, 0, 0, 0,
    0, 0, 0, 0, 0, 0, 0, 0, 0, 0, 1, 0, 0, 0, 1, 0, 0, 0, 0, 0, 0, 0, 84, 90, 105, 102, 50, 0, 0,
    0, 0, 0, 0, 0, 0, 0, 0, 0, 0, 0, 0, 0, 0, 0, 0, 0, 0, 0, 0, 0, 0, 0, 0, 0, 0, 0, 0, 132, 0, 0,
    0, 6, 0, 0, 0, 24, 255, 255, 255, 255, 165, 182, 232, 112, 255, 255, 255, 255, 169, 121, 79,
    112, 255, 255, 255, 255, 175, 241, 57, 128, 255, 255, 255, 255, 182, 102, 100, 112, 255, 255,
    255, 255, 183, 27, 16, 0, 255, 255, 255, 255, 184, 10, 242, 240, 255, 255, 255, 255, 203, 234,
    141, 128, 255, 255, 255, 255, 210, 35, 244, 112, 255, 255, 255, 255, 210, 157, 174, 240, 255,
    255, 255, 255, 215, 27, 89, 0, 255, 255, 255, 255, 216, 145, 180, 240, 255, 255, 255, 255,
    219, 0, 7, 0, 255, 255, 255, 255, 219, 192, 115, 240, 255, 255, 255, 255, 220, 222, 179, 160,
    255, 255, 255, 255, 221, 169, 172, 144, 255, 255, 255, 255, 222, 190, 149, 160, 255, 255, 255,
    255, 223, 137, 142, 144, 255, 255, 255, 255, 224, 158, 105, 144, 255, 255, 255, 255, 225, 105,
    112, 144, 255, 255, 255, 255, 226, 126, 75, 144, 255, 255, 255, 255, 227, 73, 82, 144, 255,
    255, 255, 255, 228, 94, 45, 144, 255, 255, 255, 255, 229, 41, 52, 144, 255, 255, 255, 255,
    230, 71, 74, 16, 255, 255, 255, 255, 231, 18, 81, 16, 255, 255, 255, 255, 232, 39, 44, 16,
    255, 255, 255, 255, 232, 242, 51, 16, 255, 255, 255, 255, 234, 7, 14, 16, 255, 255, 255, 255,
    234, 210, 21, 16, 255, 255, 255, 255, 235, 230, 240, 16, 255, 255, 255, 255, 236, 177, 247,
    16, 255, 255, 255, 255, 237, 198, 210, 16, 255, 255, 255, 255, 238, 145, 217, 16, 255, 255,
    255, 255, 239, 175, 238, 144, 255, 255, 255, 255, 240, 113, 187, 16, 255, 255, 255, 255, 241,
    143, 208, 144, 255, 255, 255, 255, 242, 127, 193, 144, 255, 255, 255, 255, 243, 111, 178, 144,
    255, 255, 255, 255, 244, 95, 163, 144, 255, 255, 255, 255, 245, 79, 148, 144, 255, 255, 255,
    255, 246, 63, 133, 144, 255, 255, 255, 255, 247, 47, 118, 144, 255, 255, 255, 255, 248, 40,
    162, 16, 255, 255, 255, 255, 249, 15, 88, 144, 255, 255, 255, 255, 250, 8, 132, 16, 255, 255,
    255, 255, 250, 248, 131, 32, 255, 255, 255, 255, 251, 232, 102, 16, 255, 255, 255, 255, 252,
    216, 101, 32, 255, 255, 255, 255, 253, 200, 72, 16, 255, 255, 255, 255, 254, 184, 71, 32, 255,
    255, 255, 255, 255, 168, 42, 16, 0, 0, 0, 0, 0, 152, 41, 32, 0, 0, 0, 0, 1, 136, 12, 16, 0, 0,
    0, 0, 2, 120, 11, 32, 0, 0, 0, 0, 3, 113, 40, 144, 0, 0, 0, 0, 4, 97, 39, 160, 0, 0, 0, 0, 5,
    81, 10, 144, 0, 0, 0, 0, 6, 65, 9, 160, 0, 0, 0, 0, 7, 48, 236, 144, 0, 0, 0, 0, 7, 141, 67,
    160, 0, 0, 0, 0, 9, 16, 206, 144, 0, 0, 0, 0, 9, 173, 191, 32, 0, 0, 0, 0, 10, 240, 176, 144,
    0, 0, 0, 0, 11, 224, 175, 160, 0, 0, 0, 0, 12, 217, 205, 16, 0, 0, 0, 0, 13, 192, 145, 160, 0,
    0, 0, 0, 14, 185, 175, 16, 0, 0, 0, 0, 15, 169, 174, 32, 0, 0, 0, 0, 16, 153, 145, 16, 0, 0,
    0, 0, 17, 137, 144, 32, 0, 0, 0, 0, 18, 121, 115, 16, 0, 0, 0, 0, 19, 105, 114, 32, 0, 0, 0,
    0, 20, 89, 85, 16, 0, 0, 0, 0, 21, 73, 84, 32, 0, 0, 0, 0, 22, 57, 55, 16, 0, 0, 0, 0, 23, 41,
    54, 32, 0, 0, 0, 0, 24, 34, 83, 144, 0, 0, 0, 0, 25, 9, 24, 32, 0, 0, 0, 0, 26, 2, 53, 144, 0,
    0, 0, 0, 26, 242, 52, 160, 0, 0, 0, 0, 27, 226, 23, 144, 0, 0, 0, 0, 28, 210, 22, 160, 0, 0,
    0, 0, 29, 193, 249, 144, 0, 0, 0, 0, 30, 177, 248, 160, 0, 0, 0, 0, 31, 161, 219, 144, 0, 0,
    0, 0, 32, 118, 43, 32, 0, 0, 0, 0, 33, 129, 189, 144, 0, 0, 0, 0, 34, 86, 13, 32, 0, 0, 0, 0,
    35, 106, 218, 16, 0, 0, 0, 0, 36, 53, 239, 32, 0, 0, 0, 0, 37, 74, 188, 16, 0, 0, 0, 0, 38,
    21, 209, 32, 0, 0, 0, 0, 39, 42, 158, 16, 0, 0, 0, 0, 39, 254, 237, 160, 0, 0, 0, 0, 41, 10,
    128, 16, 0, 0, 0, 0, 41, 222, 207, 160, 0, 0, 0, 0, 42, 234, 98, 16, 0, 0, 0, 0, 43, 190, 177,
    160, 0, 0, 0, 0, 44, 211, 126, 144, 0, 0, 0, 0, 45, 158, 147, 160, 0, 0, 0, 0, 46, 179, 96,
    144, 0, 0, 0, 0, 47, 126, 117, 160, 0, 0, 0, 0, 48, 147, 66, 144, 0, 0, 0, 0, 49, 103, 146,
    32, 0, 0, 0, 0, 50, 115, 36, 144, 0, 0, 0, 0, 51, 71, 116, 32, 0, 0, 0, 0, 52, 83, 6, 144, 0,
    0, 0, 0, 53, 39, 86, 32, 0, 0, 0, 0, 54, 50, 232, 144, 0, 0, 0, 0, 55, 7, 56, 32, 0, 0, 0, 0,
    56, 28, 5, 16, 0, 0, 0, 0, 56, 231, 26, 32, 0, 0, 0, 0, 57, 251, 231, 16, 0, 0, 0, 0, 58, 198,
    252, 32, 0, 0, 0, 0, 59, 219, 201, 16, 0, 0, 0, 0, 60, 176, 24, 160, 0, 0, 0, 0, 61, 187, 171,
    16, 0, 0, 0, 0, 62, 143, 250, 160, 0, 0, 0, 0, 63, 155, 141, 16, 0, 0, 0, 0, 64, 111, 220,
    160, 0, 0, 0, 0, 65, 132, 169, 144, 0, 0, 0, 0, 66, 79, 190, 160, 0, 0, 0, 0, 67, 100, 139,
    144, 0, 0, 0, 0, 68, 47, 160, 160, 0, 0, 0, 0, 69, 68, 109, 144, 0, 0, 0, 0, 70, 15, 130, 160,
    0, 0, 0, 0, 71, 36, 79, 144, 0, 0, 0, 0, 71, 248, 159, 32, 0, 0, 0, 0, 73, 4, 49, 144, 0, 0,
    0, 0, 73, 216, 129, 32, 0, 0, 0, 0, 74, 228, 19, 144, 0, 0, 0, 0, 75, 61, 171, 128, 1, 2, 1,
    2, 3, 2, 4, 5, 2, 3, 2, 3, 2, 3, 2, 3, 2, 3, 2, 3, 2, 3, 2, 3, 2, 3, 2, 3, 2, 3, 2, 3, 2, 3,
    2, 3, 2, 3, 2, 3, 2, 3, 2, 3, 2, 3, 2, 3, 2, 3, 2, 3, 2, 3, 2, 3, 2, 3, 2, 3, 2, 3, 2, 3, 2,
    3, 2, 3, 2, 3, 2, 3, 2, 3, 2, 3, 2, 3, 2, 3, 2, 3, 2, 3, 2, 3, 2, 3, 2, 3, 2, 3, 2, 3, 2, 3,
    2, 3, 2, 3, 2, 3, 2, 3, 2, 3, 2, 3, 2, 3, 2, 3, 2, 3, 2, 3, 2, 3, 2, 3, 2, 3, 2, 3, 2, 3, 2,
    3, 2, 3, 2, 2, 255, 255, 146, 76, 0, 0, 255, 255, 157, 144, 0, 4, 255, 255, 143, 128, 0, 8,
    255, 255, 157, 144, 1, 12, 255, 255, 157, 144, 1, 16, 255, 255, 157, 144, 1, 20, 76, 77, 84,
    0, 77, 83, 84, 0, 80, 83, 84, 0, 80, 68, 84, 0, 80, 87, 84, 0, 80, 80, 84, 0, 10, 80, 83, 84,
    56, 80, 68, 84, 44, 77, 51, 46, 50, 46, 48, 44, 77, 49, 49, 46, 49, 46, 48, 10,
];

/// `America/Toronto`.
#[verifier::opaque]
pub const AMERICA_TORONTO: [u8; 1717] = [
    84, 90, 105, 102, 50, 0, 0, 0, 0, 0, 0, 0, 0, 0, 0, 0, 0, 0, 0, 0, 0, 0, 0, 0, 0, 0, 0, 0, 0,
    0, 0, 0, 0, 0, 0, 0, 0, 0, 0, 1, 0, 0, 0, 1, 0, 0, 0, 0, 0, 0, 0, 84, 90, 105, 102, 50, 0, 0,
    0, 0, 0, 0, 0, 0, 0, 0, 0, 0, 0, 0, 0, 0, 0, 0, 0, 0, 0, 0, 0, 0, 0, 0, 0, 0, 0, 0, 172, 0, 0,
    0, 5, 0, 0, 0, 20, 255, 255, 255, 255, 114, 238, 120, 236, 255, 255, 255, 255, 158, 184, 147,
    112, 255, 255, 255, 255, 159, 186, 235, 96, 255, 255, 255, 255, 160, 135, 46, 200, 255, 255,
    255, 255, 161, 154, 177, 64, 255, 255, 255, 255, 162, 148, 6, 240, 255, 255, 255, 255, 163,
    85, 169, 64, 255, 255, 255, 255, 164, 134, 93, 240, 255, 255, 255, 255, 165, 40, 120, 96, 255,
    255, 255, 255, 166, 102, 63, 240, 255, 255, 255, 255, 167, 12, 78, 224, 255, 255, 255, 255,
    168, 70, 33, 240, 255, 255, 255, 255, 168, 236, 48, 224, 255, 255, 255, 255, 170, 28, 201,
    112, 255, 255, 255, 255, 170, 213, 77, 96, 255, 255, 255, 255, 171, 252, 171, 112, 255, 255,
    255, 255, 172, 181, 47, 96, 255, 255, 255, 255, 173, 220, 141, 112, 255, 255, 255, 255, 174,
    149, 17, 96, 255, 255, 255, 255, 175, 188, 111, 112, 255, 255, 255, 255, 176, 126, 45, 224,
    255, 255, 255, 255, 177, 156, 81, 112, 255, 255, 255, 255, 178, 103, 74, 96, 255, 255, 255,
    255, 179, 124, 51, 112, 255, 255, 255, 255, 180, 71, 44, 96, 255, 255, 255, 255, 181, 92, 21,
    112, 255, 255, 255, 255, 182, 39, 14, 96, 255, 255, 255, 255, 183, 59, 247, 112, 255, 255,
    255, 255, 184, 6, 240, 96, 255, 255, 255, 255, 185, 37, 19, 240, 255, 255, 255, 255, 185, 230,
    210, 96, 255, 255, 255, 255, 187, 4, 245, 240, 255, 255, 255, 255, 187, 207, 238, 224, 255,
    255, 255, 255, 188, 228, 215, 240, 255, 255, 255, 255, 189, 175, 208, 224, 255, 255, 255, 255,
    190, 196, 185, 240, 255, 255, 255, 255, 191, 143, 178, 224, 255, 255, 255, 255, 192, 164, 155,
    240, 255, 255, 255, 255, 193, 111, 148, 224, 255, 255, 255, 255, 194, 132, 125, 240, 255, 255,
    255, 255, 195, 79, 118, 224, 255, 255, 255, 255, 196, 100, 95, 240, 255, 255, 255, 255, 197,
    47, 88, 224, 255, 255, 255, 255, 198, 77, 124, 112, 255, 255, 255, 255, 199, 15, 58, 224, 255,
    255, 255, 255, 200, 45, 94, 112, 255, 255, 255, 255, 203, 136, 240, 112, 255, 255, 255, 255,
    210, 35, 244, 112, 255, 255, 255, 255, 210, 96, 251, 224, 255, 255, 255, 255, 211, 117, 228,
    240, 255, 255, 255, 255, 212, 64, 221, 224, 255, 255, 255, 255, 213, 85, 198, 240, 255, 255,
    255, 255, 214, 32, 191, 224, 255, 255, 255, 255, 215, 53, 168, 240, 255, 255, 255, 255, 216,
    0, 161, 224, 255, 255, 255, 255, 217, 21, 138, 240, 255, 255, 255, 255, 218, 51, 146, 96, 255,
    255, 255, 255, 218, 254, 167, 112, 255, 255, 255, 255, 220, 19, 116, 96, 255, 255, 255, 255,
    220, 222, 137, 112, 255, 255, 255, 255, 221, 169, 130, 96, 255, 255, 255, 255, 222, 190, 107,
    112, 255, 255, 255, 255, 223, 137, 100, 96, 255, 255, 255, 255, 224, 158, 77, 112, 255, 255,
    255, 255, 225, 105, 70, 96, 255, 255, 255, 255, 226, 126, 47, 112, 255, 255, 255, 255, 227,
    73, 40, 96, 255, 255, 255, 255, 228, 94, 17, 112, 255, 255, 255, 255, 229, 41, 10, 96, 255,
    255, 255, 255, 230, 71, 45, 240, 255, 255, 255, 255, 231, 18, 38, 224, 255, 255, 255, 255,
    232, 39, 15, 240, 255, 255, 255, 255, 233, 22, 242, 224, 255, 255, 255, 255, 234, 6, 241, 240,
    255, 255, 255, 255, 234, 246, 212, 224, 255, 255, 255, 255, 235, 230, 211, 240, 255, 255, 255,
    255, 236, 214, 182, 224, 255, 255, 255, 255, 237, 198, 181, 240, 255, 255, 255, 255, 238, 191,
    211, 96, 255, 255, 255, 255, 239, 175, 210, 112, 255, 255, 255, 255, 240, 159, 181, 96, 255,
    255, 255, 255, 241, 143, 180, 112, 255, 255, 255, 255, 242, 127, 151, 96, 255, 255, 255, 255,
    243, 111, 150, 112, 255, 255, 255, 255, 244, 95, 121, 96, 255, 255, 255, 255, 245, 79, 120,
    112, 255, 255, 255, 255, 246, 63, 91, 96, 255, 255, 255, 255, 247, 47, 90, 112, 255, 255, 255,
    255, 248, 40, 119, 224, 255, 255, 255, 255, 249, 15, 60, 112, 255, 255, 255, 255, 250, 8, 89,
    224, 255, 255, 255, 255, 250, 248, 88, 240, 255, 255, 255, 255, 251, 232, 59, 224, 255, 255,
    255, 255, 252, 216, 58, 240, 255, 255, 255, 255, 253, 200, 29, 224, 255, 255, 255, 255, 254,
    184, 28, 240, 255, 255, 255, 255, 255, 167, 255, 224, 0, 0, 0, 0, 0, 151, 254, 240, 0, 0, 0,
    0, 1, 135, 225, 224, 0, 0, 0, 0, 2, 119, 224, 240, 0, 0, 0, 0, 3, 112, 254, 96, 0, 0, 0, 0, 4,
    96, 253, 112, 0, 0, 0, 0, 5, 80, 224, 96, 0, 0, 0, 0, 6, 64, 223, 112, 0, 0, 0, 0, 7, 48, 194,
    96, 0, 0, 0, 0, 8, 32, 193, 112, 0, 0, 0, 0, 9, 16, 164, 96, 0, 0, 0, 0, 10, 0, 163, 112, 0,
    0, 0, 0, 10, 240, 134, 96, 0, 0, 0, 0, 11, 224, 133, 112, 0, 0, 0, 0, 12, 217, 162, 224, 0, 0,
    0, 0, 13, 192, 103, 112, 0, 0, 0, 0, 14, 185, 132, 224, 0, 0, 0, 0, 15, 169, 131, 240, 0, 0,
    0, 0, 16, 153, 102, 224, 0, 0, 0, 0, 17, 137, 101, 240, 0, 0, 0, 0, 18, 121, 72, 224, 0, 0, 0,
    0, 19, 105, 71, 240, 0, 0, 0, 0, 20, 89, 42, 224, 0, 0, 0, 0, 21, 73, 41, 240, 0, 0, 0, 0, 22,
    57, 12, 224, 0, 0, 0, 0, 23, 41, 11, 240, 0, 0, 0, 0, 24, 34, 41, 96, 0, 0, 0, 0, 25, 8, 237,
    240, 0, 0, 0, 0, 26, 2, 11, 96, 0, 0, 0, 0, 26, 242, 10, 112, 0, 0, 0, 0, 27, 225, 237, 96, 0,
    0, 0, 0, 28, 209, 236, 112, 0, 0, 0, 0, 29, 193, 207, 96, 0, 0, 0, 0, 30, 177, 206, 112, 0, 0,
    0, 0, 31, 161, 177, 96, 0, 0, 0, 0, 32, 118, 0, 240, 0, 0, 0, 0, 33, 129, 147, 96, 0, 0, 0, 0,
    34, 85, 226, 240, 0, 0, 0, 0, 35, 106, 175, 224, 0, 0, 0, 0, 36, 53, 196, 240, 0, 0, 0, 0, 37,
    74, 145, 224, 0, 0, 0, 0, 38, 21, 166, 240, 0, 0, 0, 0, 39, 42, 115, 224, 0, 0, 0, 0, 39, 254,
    195, 112, 0, 0, 0, 0, 41, 10, 85, 224, 0, 0, 0, 0, 41, 222, 165, 112, 0, 0, 0, 0, 42, 234, 55,
    224, 0, 0, 0, 0, 43, 190, 135, 112, 0, 0, 0, 0, 44, 211, 84, 96, 0, 0, 0, 0, 45, 158, 105,
    112, 0, 0, 0, 0, 46, 179, 54, 96, 0, 0, 0, 0, 47, 126, 75, 112, 0, 0, 0, 0, 48, 147, 24, 96,
    0, 0, 0, 0, 49, 103, 103, 240, 0, 0, 0, 0, 50, 114, 250, 96, 0, 0, 0, 0, 51, 71, 73, 240, 0,
    0, 0, 0, 52, 82, 220, 96, 0, 0, 0, 0, 53, 39, 43, 240, 0, 0, 0, 0, 54, 50, 190, 96, 0, 0, 0,
    0, 55, 7, 13, 240, 0, 0, 0, 0, 56, 27, 218, 224, 0, 0, 0, 0, 56, 230, 239, 240, 0, 0, 0, 0,
    57, 251, 188, 224, 0, 0, 0, 0, 58, 198, 209, 240, 0, 0, 0, 0, 59, 219, 158, 224, 0, 0, 0, 0,
    60, 175, 238, 112, 0, 0, 0, 0, 61, 187, 128, 224, 0, 0, 0, 0, 62, 143, 208, 112, 0, 0, 0, 0,
    63, 155, 98, 224, 0, 0, 0, 0, 64, 111, 178, 112, 0, 0, 0, 0, 65, 132, 127, 96, 0, 0, 0, 0, 66,
    79, 148, 112, 0, 0, 0, 0, 67, 100, 97, 96, 0, 0, 0, 0, 68, 47, 118, 112, 0, 0, 0, 0, 69, 68,
    67, 96, 0, 0, 0, 0, 69, 243, 168, 240, 2, 1, 2, 1, 2, 1, 2, 1, 2, 1, 2, 1, 2, 1, 2, 1, 2, 1,
    2, 1, 2, 1, 2, 1, 2, 1, 2, 1, 2, 1, 2, 1, 2, 1, 2, 1, 2, 1, 2, 1, 2, 1, 2, 1, 2, 1, 3, 4, 2,
    1, 2, 1, 2, 1, 2, 1, 2, 1, 2, 1, 2, 1, 2, 1, 2, 1, 2, 1, 2, 1, 2, 1, 2, 1, 2, 1, 2, 1, 2, 1,
    2, 1, 2, 1, 2, 1, 2, 1, 2, 1, 2, 1, 2, 1, 2, 1, 2, 1, 2, 1, 2, 1, 2, 1, 2, 1, 2, 1, 2, 1, 2,
    1, 2, 1, 2, 1, 2, 1, 2, 1, 2, 1, 2, 1, 2, 1, 2, 1, 2, 1, 2, 1, 2, 1, 2, 1, 2, 1, 2, 1, 2, 1,
    2, 1, 2, 1, 2, 1, 2, 1, 2, 1, 2, 1, 2, 1, 2, 1, 2, 1, 2, 1, 2, 1, 2, 1, 2, 1, 2, 1, 2, 1, 255,
    255, 181, 148, 0, 0, 255, 255, 199, 192, 1, 4, 255, 255, 185, 176, 0, 8, 255, 255, 199, 192,
    1, 12, 255, 255, 199, 192, 1, 16, 76, 77, 84, 0, 69, 68, 84, 0, 69, 83, 84, 0, 69, 87, 84, 0,
    69, 80, 84, 0, 10, 69, 83, 84, 53, 69, 68, 84, 44, 77, 51, 46, 50, 46, 48, 44, 77, 49, 49, 46,
    49, 46, 48, 10,
];

/// `America/Vancouver`.
#[verifier::opaque]
pub const AMERICA_VANCOUVER: [u8; 1330] = [
    84, 90, 105, 102, 50, 0, 0, 0, 0, 0, 0, 0, 0, 0, 0, 0, 0, 0, 0, 0, 0, 0, 0, 0, 0, 0, 0, 0, 0,
    0, 0, 0, 0, 0, 0, 0, 0, 0, 0, 1, 0, 0, 0, 1, 0, 0, 0, 0, 0, 0, 0, 84, 90, 105, 102, 50, 0, 0,
    0, 0, 0, 0, 0, 0, 0, 0, 0, 0, 0, 0, 0, 0, 0, 0, 0, 0, 0, 0, 0, 0, 0, 0, 0, 0, 0, 0, 129, 0, 0,
    0, 5, 0, 0, 0, 20, 255, 255, 255, 255, 94, 61, 118, 236, 255, 255, 255, 255, 158, 184, 189,
    160, 255, 255, 255, 255, 159, 187, 21, 144, 255, 255, 255, 255, 203, 137, 26, 160, 255, 255,
    255, 255, 210, 35, 244, 112, 255, 255, 255, 255, 210, 97, 38, 16, 255, 255, 255, 255, 211,
    118, 15, 32, 255, 255, 255, 255, 212, 65, 8, 16, 255, 255, 255, 255, 213, 85, 241, 32, 255,
    255, 255, 255, 214, 32, 234, 16, 255, 255, 255, 255, 215, 53, 211, 32, 255, 255, 255, 255,
    216, 0, 204, 16, 255, 255, 255, 255, 217, 21, 181, 32, 255, 255, 255, 255, 217, 224, 174, 16,
    255, 255, 255, 255, 218, 254, 209, 160, 255, 255, 255, 255, 219, 192, 144, 16, 255, 255, 255,
    255, 220, 222, 179, 160, 255, 255, 255, 255, 221, 169, 172, 144, 255, 255, 255, 255, 222, 190,
    149, 160, 255, 255, 255, 255, 223, 137, 142, 144, 255, 255, 255, 255, 224, 158, 119, 160, 255,
    255, 255, 255, 225, 105, 112, 144, 255, 255, 255, 255, 226, 126, 89, 160, 255, 255, 255, 255,
    227, 73, 82, 144, 255, 255, 255, 255, 228, 94, 59, 160, 255, 255, 255, 255, 229, 41, 52, 144,
    255, 255, 255, 255, 230, 71, 88, 32, 255, 255, 255, 255, 231, 18, 81, 16, 255, 255, 255, 255,
    232, 39, 58, 32, 255, 255, 255, 255, 232, 242, 51, 16, 255, 255, 255, 255, 234, 7, 28, 32,
    255, 255, 255, 255, 234, 210, 21, 16, 255, 255, 255, 255, 235, 230, 254, 32, 255, 255, 255,
    255, 236, 177, 247, 16, 255, 255, 255, 255, 237, 198, 224, 32, 255, 255, 255, 255, 238, 145,
    217, 16, 255, 255, 255, 255, 239, 175, 252, 160, 255, 255, 255, 255, 240, 113, 187, 16, 255,
    255, 255, 255, 241, 143, 222, 160, 255, 255, 255, 255, 242, 127, 193, 144, 255, 255, 255, 255,
    243, 111, 192, 160, 255, 255, 255, 255, 244, 95, 163, 144, 255, 255, 255, 255, 245, 79, 162,
    160, 255, 255, 255, 255, 246, 63, 133, 144, 255, 255, 255, 255, 247, 47, 132, 160, 255, 255,
    255, 255, 248, 40, 162, 16, 255, 255, 255, 255, 249, 15, 102, 160, 255, 255, 255, 255, 250, 8,
    132, 16, 255, 255, 255, 255, 250, 248, 131, 32, 255, 255, 255, 255, 251, 232, 102, 16, 255,
    255, 255, 255, 252, 216, 101, 32, 255, 255, 255, 255, 253, 200, 72, 16, 255, 255, 255, 255,
    254, 184, 71, 32, 255, 255, 255, 255, 255, 168, 42, 16, 0, 0, 0, 0, 0, 152, 41, 32, 0, 0, 0,
    0, 1, 136, 12, 16, 0, 0, 0, 0, 2, 120, 11, 32, 0, 0, 0, 0, 3, 113, 40, 144, 0, 0, 0, 0, 4, 97,
    39, 160, 0, 0, 0, 0, 5, 81, 10, 144, 0, 0, 0, 0, 6, 65, 9, 160, 0, 0, 0, 0, 7, 48, 236, 144,
    0, 0, 0, 0, 8, 32, 235, 160, 0, 0, 0, 0, 9, 16, 206, 144, 0, 0, 0, 0, 10, 0, 205, 160, 0, 0,
    0, 0, 10, 240, 176, 144, 0, 0, 0, 0, 11, 224, 175, 160, 0, 0, 0, 0, 12, 217, 205, 16, 0, 0, 0,
    0, 13, 192, 145, 160, 0, 0, 0, 0, 14, 185, 175, 16, 0, 0, 0, 0, 15, 169, 174, 32, 0, 0, 0, 0,
    16, 153, 145, 16, 0, 0, 0, 0, 17, 137, 144, 32, 0, 0, 0, 0, 18, 121, 115, 16, 0, 0, 0, 0, 19,
    105, 114, 32, 0, 0, 0, 0, 20, 89, 85, 16, 0, 0, 0, 0, 21, 73, 84, 32, 0, 0, 0, 0, 22, 57, 55,
    16, 0, 0, 0, 0, 23, 41, 54, 32, 0, 0, 0, 0, 24, 34, 83, 144, 0, 0, 0, 0, 25, 9, 24, 32, 0, 0,
    0, 0, 26, 2, 53, 144, 0, 0, 0, 0, 26, 242, 52, 160, 0, 0, 0, 0, 27, 226, 23, 144, 0, 0, 0, 0,
    28, 210, 22, 160, 0, 0, 0, 0, 29, 193, 249, 144, 0, 0, 0, 0, 30, 177, 248, 160, 0, 0, 0, 0,
    31, 161, 219, 144, 0, 0, 0, 0, 32, 118, 43, 32, 0, 0, 0, 0, 33, 129, 189, 144, 0, 0, 0, 0, 34,
    86, 13, 32, 0, 0, 0, 0, 35, 106, 218, 16, 0, 0, 0, 0, 36, 53, 239, 32, 0, 0, 0, 0, 37, 74,
    188, 16, 0, 0, 0, 0, 38, 21, 209, 32, 0, 0, 0, 0, 39, 42, 158, 16, 0, 0, 0, 0, 39, 254, 237,
    160, 0, 0, 0, 0, 41, 10, 128, 16, 0, 0, 0, 0, 41, 222, 207, 160, 0, 0, 0, 0, 42, 234, 98, 16,
    0, 0, 0, 0, 43, 190, 177, 160, 0, 0, 0, 0, 44, 211, 126, 144, 0, 0, 0, 0, 45, 158, 147, 160,
    0, 0, 0, 0, 46, 179, 96, 144, 0, 0, 0, 0, 47, 126, 117, 160, 0, 0, 0, 0, 48, 147, 66, 144, 0,
    0, 0, 0, 49, 103, 146, 32, 0, 0, 0, 0, 50, 115, 36, 144, 0, 0, 0, 0, 51, 71, 116, 32, 0, 0, 0,
    0, 52, 83, 6, 144, 0, 0, 0, 0, 53, 39, 86, 32, 0, 0, 0, 0, 54, 50, 232, 144, 0, 0, 0, 0, 55,
    7, 56, 32, 0, 0, 0, 0, 56, 28, 5, 16, 0, 0, 0, 0, 56, 231, 26, 32, 0, 0, 0, 0, 57, 251, 231,
    16, 0, 0, 0, 0, 58, 198, 252, 32, 0, 0, 0, 0, 59, 219, 201, 16, 0, 0, 0, 0, 60, 176, 24, 160,
    0, 0, 0, 0, 61, 187, 171, 16, 0, 0, 0, 0, 62, 143, 250, 160, 0, 0, 0, 0, 63, 155, 141, 16, 0,
    0, 0, 0, 64, 111, 220, 160, 0, 0, 0, 0, 65, 132, 169, 144, 0, 0, 0, 0, 66, 79, 190, 160, 0, 0,
    0, 0, 67, 100, 139, 144, 0, 0, 0, 0, 68, 47, 160, 160, 0, 0, 0, 0, 69, 68, 109, 144, 0, 0, 0,
    0, 69, 243, 211, 32, 2, 1, 2, 3, 4, 2, 1, 2, 1, 2, 1, 2, 1, 2, 1, 2, 1, 2, 1, 2, 1, 2, 1, 2,
    1, 2, 1, 2, 1, 2, 1, 2, 1, 2, 1, 2, 1, 2, 1, 2, 1, 2, 1, 2, 1, 2, 1, 2, 1, 2, 1, 2, 1, 2, 1,
    2, 1, 2, 1, 2, 1, 2, 1, 2, 1, 2, 1, 2, 1, 2, 1, 2, 1, 2, 1, 2, 1, 2, 1, 2, 1, 2, 1, 2, 1, 2,
    1, 2, 1, 2, 1, 2, 1, 2, 1, 2, 1, 2, 1, 2, 1, 2, 1, 2, 1, 2, 1, 2, 1, 2, 1, 2, 1, 2, 1, 2, 1,
    2, 1, 2, 1, 2, 1, 2, 1, 2, 1, 2, 1, 255, 255, 140, 148, 0, 0, 255, 255, 157, 144, 1, 4, 255,
    255, 143, 128, 0, 8, 255, 255, 157, 144, 1, 12, 255, 255, 157, 144, 1, 16, 76, 77, 84, 0, 80,
    68, 84, 0, 80, 83, 84, 0, 80, 87, 84, 0, 80, 80, 84, 0, 10, 80, 83, 84, 56, 80, 68, 84, 44,
    77, 51, 46, 50, 46, 48, 44, 77, 49, 49, 46, 49, 46, 48, 10,
];

/// `America/Whitehorse`.
#[verifier::opaque]
pub const AMERICA_WHITEHORSE: [u8; 1029] = [
    84, 90, 105, 102, 50, 0, 0, 0, 0, 0, 0, 0, 0, 0, 0, 0, 0, 0, 0, 0, 0, 0, 0, 0, 0, 0, 0, 0, 0,
    0, 0, 0, 0, 0, 0, 0, 0, 0, 0, 1, 0, 0, 0, 1, 0, 0, 0, 0, 0, 0, 0, 84, 90, 105, 102, 50, 0, 0,
    0, 0, 0, 0, 0, 0, 0, 0, 0, 0, 0, 0, 0, 0, 0, 0, 0, 0, 0, 0, 0, 0, 0, 0, 0, 0, 0, 0, 93, 0, 0,
    0, 9, 0, 0, 0, 37, 255, 255, 255, 255, 125, 134, 138, 156, 255, 255, 255, 255, 158, 184, 203,
    176, 255, 255, 255, 255, 159, 187, 35, 160, 255, 255, 255, 255, 160, 208, 12, 176, 255, 255,
    255, 255, 161, 162, 210, 128, 255, 255, 255, 255, 203, 137, 40, 176, 255, 255, 255, 255, 210,
    35, 244, 112, 255, 255, 255, 255, 210, 97, 52, 32, 255, 255, 255, 255, 247, 47, 118, 144, 255,
    255, 255, 255, 248, 40, 162, 16, 255, 255, 255, 255, 248, 197, 132, 144, 0, 0, 0, 0, 19, 105,
    114, 32, 0, 0, 0, 0, 20, 89, 85, 16, 0, 0, 0, 0, 21, 73, 84, 32, 0, 0, 0, 0, 22, 57, 55, 16,
    0, 0, 0, 0, 23, 41, 54, 32, 0, 0, 0, 0, 24, 34, 83, 144, 0, 0, 0, 0, 25, 9, 24, 32, 0, 0, 0,
    0, 26, 2, 53, 144, 0, 0, 0, 0, 26, 242, 52, 160, 0, 0, 0, 0, 27, 226, 23, 144, 0, 0, 0, 0, 28,
    210, 22, 160, 0, 0, 0, 0, 29, 193, 249, 144, 0, 0, 0, 0, 30, 177, 248, 160, 0, 0, 0, 0, 31,
    161, 219, 144, 0, 0, 0, 0, 32, 118, 43, 32, 0, 0, 0, 0, 33, 129, 189, 144, 0, 0, 0, 0, 34, 86,
    13, 32, 0, 0, 0, 0, 35, 106, 218, 16, 0, 0, 0, 0, 36, 53, 239, 32, 0, 0, 0, 0, 37, 74, 188,
    16, 0, 0, 0, 0, 38, 21, 209, 32, 0, 0, 0, 0, 39, 42, 158, 16, 0, 0, 0, 0, 39, 254, 237, 160,
    0, 0, 0, 0, 41, 10, 128, 16, 0, 0, 0, 0, 41, 222, 207, 160, 0, 0, 0, 0, 42, 234, 98, 16, 0, 0,
    0, 0, 43, 190, 177, 160, 0, 0, 0, 0, 44, 211, 126, 144, 0, 0, 0, 0, 45, 158, 147, 160, 0, 0,
    0, 0, 46, 179, 96, 144, 0, 0, 0, 0, 47, 126, 117, 160, 0, 0, 0, 0, 48, 147, 66, 144, 0, 0, 0,
    0, 49, 103, 146, 32, 0, 0, 0, 0, 50, 115, 36, 144, 0, 0, 0, 0, 51, 71, 116, 32, 0, 0, 0, 0,
    52, 83, 6, 144, 0, 0, 0, 0, 53, 39, 86, 32, 0, 0, 0, 0, 54, 50, 232, 144, 0, 0, 0, 0, 55, 7,
    56, 32, 0, 0, 0, 0, 56, 28, 5, 16, 0, 0, 0, 0, 56, 231, 26, 32, 0, 0, 0, 0, 57, 251, 231, 16,
    0, 0, 0, 0, 58, 198, 252, 32, 0, 0, 0, 0, 59, 219, 201, 16, 0, 0, 0, 0, 60, 176, 24, 160, 0,
    0, 0, 0, 61, 187, 171, 16, 0, 0, 0, 0, 62, 143, 250, 160, 0, 0, 0, 0, 63, 155, 141, 16, 0, 0,
    0, 0, 64, 111, 220, 160, 0, 0, 0, 0, 65, 132, 169, 144, 0, 0, 0, 0, 66, 79, 190, 160, 0, 0, 0,
    0, 67, 100, 139, 144, 0, 0, 0, 0, 68, 47, 160, 160, 0, 0, 0, 0, 69, 68, 109, 144, 0, 0, 0, 0,
    69, 243, 211, 32, 0, 0, 0, 0, 71, 45, 138, 16, 0, 0, 0, 0, 71, 211, 181, 32, 0, 0, 0, 0, 73,
    13, 108, 16, 0, 0, 0, 0, 73, 179, 151, 32, 0, 0, 0, 0, 74, 237, 78, 16, 0, 0, 0, 0, 75, 156,
    179, 160, 0, 0, 0, 0, 76, 214, 106, 144, 0, 0, 0, 0, 77, 124, 149, 160, 0, 0, 0, 0, 78, 182,
    76, 144, 0, 0, 0, 0, 79, 92, 119, 160, 0, 0, 0, 0, 80, 150, 46, 144, 0, 0, 0, 0, 81, 60, 89,
    160, 0, 0, 0, 0, 82, 118, 16, 144, 0, 0, 0, 0, 83, 28, 59, 160, 0, 0, 0, 0, 84, 85, 242, 144,
    0, 0, 0, 0, 84, 252, 29, 160, 0, 0, 0, 0, 86, 53, 212, 144, 0, 0, 0, 0, 86, 229, 58, 32, 0, 0,
    0, 0, 88, 30, 241, 16, 0, 0, 0, 0, 88, 197, 28, 32, 0, 0, 0, 0, 89, 254, 211, 16, 0, 0, 0, 0,
    90, 164, 254, 32, 0, 0, 0, 0, 91, 222, 181, 16, 0, 0, 0, 0, 92, 132, 224, 32, 0, 0, 0, 0, 93,
    190, 151, 16, 0, 0, 0, 0, 94, 100, 194, 32, 0, 0, 0, 0, 95, 158, 92, 240, 2, 1, 2, 1, 2, 3, 4,
    2, 5, 2, 6, 7, 6, 7, 6, 7, 6, 7, 6, 7, 6, 7, 6, 7, 6, 7, 6, 7, 6, 7, 6, 7, 6, 7, 6, 7, 6, 7,
    6, 7, 6, 7, 6, 7, 6, 7, 6, 7, 6, 7, 6, 7, 6, 7, 6, 7, 6, 7, 6, 7, 6, 7, 6, 7, 6, 7, 6, 7, 6,
    7, 6, 7, 6, 7, 6, 7, 6, 7, 6, 7, 6, 7, 6, 7, 6, 7, 6, 7, 6, 7, 6, 7, 8, 255, 255, 129, 100, 0,
    0, 255, 255, 143, 128, 1, 4, 255, 255, 129, 112, 0, 8, 255, 255, 143, 128, 1, 12, 255, 255,
    143, 128, 1, 16, 255, 255, 157, 144, 1, 20, 255, 255, 143, 128, 0, 25, 255, 255, 157, 144, 1,
    29, 255, 255, 157, 144, 0, 33, 76, 77, 84, 0, 89, 68, 84, 0, 89, 83, 84, 0, 89, 87, 84, 0, 89,
    80, 84, 0, 89, 68, 68, 84, 0, 80, 83, 84, 0, 80, 68, 84, 0, 77, 83, 84, 0, 10, 77, 83, 84, 55,
    10,
];

/// `America/Winnipeg`.
#[verifier::opaque]
pub const AMERICA_WINNIPEG: [u8; 1294] = [
    84, 90, 105, 102, 50, 0, 0, 0, 0, 0, 0, 0, 0, 0, 0, 0, 0, 0, 0, 0, 0, 0, 0, 0, 0, 0, 0, 0, 0,
    0, 0, 0, 0, 0, 0, 0, 0, 0, 0, 1, 0, 0, 0, 1, 0, 0, 0, 0, 0, 0, 0, 84, 90, 105, 102, 50, 0, 0,
    0, 0, 0, 0, 0, 0, 0, 0, 0, 0, 0, 0, 0, 0, 0, 0, 0, 0, 0, 0, 0, 0, 0, 0, 0, 0, 0, 0, 125, 0, 0,
    0, 5, 0, 0, 0, 20, 255, 255, 255, 255, 100, 228, 176, 148, 255, 255, 255, 255, 155, 1, 251,
    224, 255, 255, 255, 255, 155, 195, 186, 80, 255, 255, 255, 255, 158, 184, 161, 128, 255, 255,
    255, 255, 159, 186, 249, 112, 255, 255, 255, 255, 194, 160, 59, 128, 255, 255, 255, 255, 195,
    79, 132, 240, 255, 255, 255, 255, 203, 136, 254, 128, 255, 255, 255, 255, 210, 35, 244, 112,
    255, 255, 255, 255, 210, 97, 9, 240, 255, 255, 255, 255, 211, 136, 104, 0, 255, 255, 255, 255,
    212, 83, 96, 240, 255, 255, 255, 255, 213, 85, 213, 0, 255, 255, 255, 255, 214, 32, 205, 240,
    255, 255, 255, 255, 215, 53, 183, 0, 255, 255, 255, 255, 216, 0, 175, 240, 255, 255, 255, 255,
    217, 21, 153, 0, 255, 255, 255, 255, 217, 224, 145, 240, 255, 255, 255, 255, 219, 0, 7, 0,
    255, 255, 255, 255, 219, 200, 92, 240, 255, 255, 255, 255, 220, 222, 151, 128, 255, 255, 255,
    255, 221, 169, 144, 112, 255, 255, 255, 255, 222, 190, 121, 128, 255, 255, 255, 255, 223, 137,
    114, 112, 255, 255, 255, 255, 224, 158, 91, 128, 255, 255, 255, 255, 225, 105, 84, 112, 255,
    255, 255, 255, 226, 126, 61, 128, 255, 255, 255, 255, 227, 73, 54, 112, 255, 255, 255, 255,
    228, 94, 31, 128, 255, 255, 255, 255, 229, 41, 24, 112, 255, 255, 255, 255, 230, 71, 60, 0,
    255, 255, 255, 255, 231, 18, 52, 240, 255, 255, 255, 255, 232, 39, 30, 0, 255, 255, 255, 255,
    232, 242, 22, 240, 255, 255, 255, 255, 234, 7, 0, 0, 255, 255, 255, 255, 234, 209, 248, 240,
    255, 255, 255, 255, 235, 230, 226, 0, 255, 255, 255, 255, 236, 214, 196, 240, 255, 255, 255,
    255, 237, 198, 196, 0, 255, 255, 255, 255, 238, 145, 188, 240, 255, 255, 255, 255, 243, 111,
    164, 128, 255, 255, 255, 255, 244, 49, 98, 240, 255, 255, 255, 255, 249, 15, 74, 128, 255,
    255, 255, 255, 250, 8, 118, 0, 255, 255, 255, 255, 250, 248, 103, 0, 255, 255, 255, 255, 251,
    232, 88, 0, 255, 255, 255, 255, 252, 216, 73, 0, 255, 255, 255, 255, 253, 200, 58, 0, 255,
    255, 255, 255, 254, 184, 43, 0, 255, 255, 255, 255, 255, 168, 28, 0, 0, 0, 0, 0, 0, 152, 13,
    0, 0, 0, 0, 0, 1, 135, 254, 0, 0, 0, 0, 0, 2, 119, 239, 0, 0, 0, 0, 0, 3, 113, 26, 128, 0, 0,
    0, 0, 4, 97, 11, 128, 0, 0, 0, 0, 5, 80, 252, 128, 0, 0, 0, 0, 6, 64, 237, 128, 0, 0, 0, 0, 7,
    48, 222, 128, 0, 0, 0, 0, 8, 32, 207, 128, 0, 0, 0, 0, 9, 16, 192, 128, 0, 0, 0, 0, 10, 0,
    177, 128, 0, 0, 0, 0, 10, 240, 162, 128, 0, 0, 0, 0, 11, 224, 147, 128, 0, 0, 0, 0, 12, 217,
    191, 0, 0, 0, 0, 0, 13, 192, 117, 128, 0, 0, 0, 0, 14, 185, 161, 0, 0, 0, 0, 0, 15, 169, 146,
    0, 0, 0, 0, 0, 16, 153, 131, 0, 0, 0, 0, 0, 17, 137, 116, 0, 0, 0, 0, 0, 18, 121, 101, 0, 0,
    0, 0, 0, 19, 105, 86, 0, 0, 0, 0, 0, 20, 89, 71, 0, 0, 0, 0, 0, 21, 73, 56, 0, 0, 0, 0, 0, 22,
    57, 41, 0, 0, 0, 0, 0, 23, 41, 26, 0, 0, 0, 0, 0, 24, 34, 69, 128, 0, 0, 0, 0, 25, 8, 252, 0,
    0, 0, 0, 0, 26, 2, 39, 128, 0, 0, 0, 0, 26, 242, 24, 128, 0, 0, 0, 0, 27, 226, 9, 128, 0, 0,
    0, 0, 28, 209, 250, 128, 0, 0, 0, 0, 29, 193, 235, 128, 0, 0, 0, 0, 30, 177, 220, 128, 0, 0,
    0, 0, 31, 161, 205, 128, 0, 0, 0, 0, 32, 118, 15, 0, 0, 0, 0, 0, 33, 129, 175, 128, 0, 0, 0,
    0, 34, 85, 241, 0, 0, 0, 0, 0, 35, 106, 204, 0, 0, 0, 0, 0, 36, 53, 211, 0, 0, 0, 0, 0, 37,
    74, 174, 0, 0, 0, 0, 0, 38, 21, 181, 0, 0, 0, 0, 0, 39, 42, 144, 0, 0, 0, 0, 0, 39, 254, 209,
    128, 0, 0, 0, 0, 41, 10, 114, 0, 0, 0, 0, 0, 41, 222, 179, 128, 0, 0, 0, 0, 42, 234, 84, 0, 0,
    0, 0, 0, 43, 190, 149, 128, 0, 0, 0, 0, 44, 211, 112, 128, 0, 0, 0, 0, 45, 158, 119, 128, 0,
    0, 0, 0, 46, 179, 82, 128, 0, 0, 0, 0, 47, 126, 89, 128, 0, 0, 0, 0, 48, 147, 52, 128, 0, 0,
    0, 0, 49, 103, 118, 0, 0, 0, 0, 0, 50, 115, 22, 128, 0, 0, 0, 0, 51, 71, 88, 0, 0, 0, 0, 0,
    52, 82, 248, 128, 0, 0, 0, 0, 53, 39, 58, 0, 0, 0, 0, 0, 54, 50, 218, 128, 0, 0, 0, 0, 55, 7,
    28, 0, 0, 0, 0, 0, 56, 27, 247, 0, 0, 0, 0, 0, 56, 230, 254, 0, 0, 0, 0, 0, 57, 251, 217, 0,
    0, 0, 0, 0, 58, 198, 224, 0, 0, 0, 0, 0, 59, 219, 187, 0, 0, 0, 0, 0, 60, 175, 252, 128, 0, 0,
    0, 0, 61, 187, 157, 0, 0, 0, 0, 0, 62, 143, 222, 128, 0, 0, 0, 0, 63, 155, 127, 0, 0, 0, 0, 0,
    64, 111, 192, 128, 0, 0, 0, 0, 65, 132, 155, 128, 0, 0, 0, 0, 66, 79, 162, 128, 0, 0, 0, 0,
    67, 100, 125, 128, 0, 0, 0, 0, 68, 47, 132, 128, 0, 0, 0, 0, 69, 68, 81, 112, 0, 0, 0, 0, 69,
    243, 183, 0, 2, 1, 2, 1, 2, 1, 2, 3, 4, 2, 1, 2, 1, 2, 1, 2, 1, 2, 1, 2, 1, 2, 1, 2, 1, 2, 1,
    2, 1, 2, 1, 2, 1, 2, 1, 2, 1, 2, 1, 2, 1, 2, 1, 2, 1, 2, 1, 2, 1, 2, 1, 2, 1, 2, 1, 2, 1, 2,
    1, 2, 1, 2, 1, 2, 1, 2, 1, 2, 1, 2, 1, 2, 1, 2, 1, 2, 1, 2, 1, 2, 1, 2, 1, 2, 1, 2, 1, 2, 1,
    2, 1, 2, 1, 2, 1, 2, 1, 2, 1, 2, 1, 2, 1, 2, 1, 2, 1, 2, 1, 2, 1, 2, 1, 2, 1, 2, 1, 2, 1, 2,
    1, 2, 1, 2, 1, 255, 255, 164, 236, 0, 0, 255, 255, 185, 176, 1, 4, 255, 255, 171, 160, 0, 8,
    255, 255, 185, 176, 1, 12, 255, 255, 185, 176, 1, 16, 76, 77, 84, 0, 67, 68, 84, 0, 67, 83,
    84, 0, 67, 87, 84, 0, 67, 80, 84, 0, 10, 67, 83, 84, 54, 67, 68, 84, 44, 77, 51, 46, 50, 46,
    48, 44, 77, 49, 49, 46, 49, 46, 48, 10,
];

/// `America/Yakutat`.
#[verifier::opaque]
pub const AMERICA_YAKUTAT: [u8; 946] = [
    84, 90, 105, 102, 50, 0, 0, 0, 0, 0, 0, 0, 0, 0, 0, 0, 0, 0, 0, 0, 0, 0, 0, 0, 0, 0, 0, 0, 0,
    0, 0, 0, 0, 0, 0, 0, 0, 0, 0, 1, 0, 0, 0, 1, 0, 0, 0, 0, 0, 0, 0, 84, 90, 105, 102, 50, 0, 0,
    0, 0, 0, 0, 0, 0, 0, 0, 0, 0, 0, 0, 0, 0, 0, 0, 0, 0, 0, 0, 0, 0, 0, 0, 0, 0, 0, 0, 83, 0, 0,
    0, 8, 0, 0, 0, 30, 255, 255, 255, 255, 63, 194, 253, 209, 255, 255, 255, 255, 125, 135, 55,
    191, 255, 255, 255, 255, 203, 137, 40, 176, 255, 255, 255, 255, 210, 35, 244, 112, 255, 255,
    255, 255, 210, 97, 52, 32, 255, 255, 255, 255, 254, 184, 85, 48, 255, 255, 255, 255, 255, 168,
    56, 32, 0, 0, 0, 0, 0, 152, 55, 48, 0, 0, 0, 0, 1, 136, 26, 32, 0, 0, 0, 0, 2, 120, 25, 48, 0,
    0, 0, 0, 3, 113, 54, 160, 0, 0, 0, 0, 4, 97, 53, 176, 0, 0, 0, 0, 5, 81, 24, 160, 0, 0, 0, 0,
    6, 65, 23, 176, 0, 0, 0, 0, 7, 48, 250, 160, 0, 0, 0, 0, 7, 141, 81, 176, 0, 0, 0, 0, 9, 16,
    220, 160, 0, 0, 0, 0, 9, 173, 205, 48, 0, 0, 0, 0, 10, 240, 190, 160, 0, 0, 0, 0, 11, 224,
    189, 176, 0, 0, 0, 0, 12, 217, 219, 32, 0, 0, 0, 0, 13, 192, 159, 176, 0, 0, 0, 0, 14, 185,
    189, 32, 0, 0, 0, 0, 15, 169, 188, 48, 0, 0, 0, 0, 16, 153, 159, 32, 0, 0, 0, 0, 17, 137, 158,
    48, 0, 0, 0, 0, 18, 121, 129, 32, 0, 0, 0, 0, 19, 105, 128, 48, 0, 0, 0, 0, 20, 89, 99, 32, 0,
    0, 0, 0, 21, 73, 98, 48, 0, 0, 0, 0, 22, 57, 69, 32, 0, 0, 0, 0, 23, 41, 68, 48, 0, 0, 0, 0,
    24, 34, 97, 160, 0, 0, 0, 0, 25, 9, 38, 48, 0, 0, 0, 0, 26, 2, 67, 160, 0, 0, 0, 0, 26, 43,
    20, 16, 0, 0, 0, 0, 26, 242, 66, 176, 0, 0, 0, 0, 27, 226, 37, 160, 0, 0, 0, 0, 28, 210, 36,
    176, 0, 0, 0, 0, 29, 194, 7, 160, 0, 0, 0, 0, 30, 178, 6, 176, 0, 0, 0, 0, 31, 161, 233, 160,
    0, 0, 0, 0, 32, 118, 57, 48, 0, 0, 0, 0, 33, 129, 203, 160, 0, 0, 0, 0, 34, 86, 27, 48, 0, 0,
    0, 0, 35, 106, 232, 32, 0, 0, 0, 0, 36, 53, 253, 48, 0, 0, 0, 0, 37, 74, 202, 32, 0, 0, 0, 0,
    38, 21, 223, 48, 0, 0, 0, 0, 39, 42, 172, 32, 0, 0, 0, 0, 39, 254, 251, 176, 0, 0, 0, 0, 41,
    10, 142, 32, 0, 0, 0, 0, 41, 222, 221, 176, 0, 0, 0, 0, 42, 234, 112, 32, 0, 0, 0, 0, 43, 190,
    191, 176, 0, 0, 0, 0, 44, 211, 140, 160, 0, 0, 0, 0, 45, 158, 161, 176, 0, 0, 0, 0, 46, 179,
    110, 160, 0, 0, 0, 0, 47, 126, 131, 176, 0, 0, 0, 0, 48, 147, 80, 160, 0, 0, 0, 0, 49, 103,
    160, 48, 0, 0, 0, 0, 50, 115, 50, 160, 0, 0, 0, 0, 51, 71, 130, 48, 0, 0, 0, 0, 52, 83, 20,
    160, 0, 0, 0, 0, 53, 39, 100, 48, 0, 0, 0, 0, 54, 50, 246, 160, 0, 0, 0, 0, 55, 7, 70, 48, 0,
    0, 0, 0, 56, 28, 19, 32, 0, 0, 0, 0, 56, 231, 40, 48, 0, 0, 0, 0, 57, 251, 245, 32, 0, 0, 0,
    0, 58, 199, 10, 48, 0, 0, 0, 0, 59, 219, 215, 32, 0, 0, 0, 0, 60, 176, 38, 176, 0, 0, 0, 0,
    61, 187, 185, 32, 0, 0, 0, 0, 62, 144, 8, 176, 0, 0, 0, 0, 63, 155, 155, 32, 0, 0, 0, 0, 64,
    111, 234, 176, 0, 0, 0, 0, 65, 132, 183, 160, 0, 0, 0, 0, 66, 79, 204, 176, 0, 0, 0, 0, 67,
    100, 153, 160, 0, 0, 0, 0, 68, 47, 174, 176, 0, 0, 0, 0, 69, 68, 123, 160, 0, 0, 0, 0, 69,
    243, 225, 48, 1, 2, 3, 4, 2, 5, 2, 5, 2, 5, 2, 5, 2, 5, 2, 5, 2, 5, 2, 5, 2, 5, 2, 5, 2, 5, 2,
    5, 2, 5, 2, 5, 2, 5, 2, 7, 6, 7, 6, 7, 6, 7, 6, 7, 6, 7, 6, 7, 6, 7, 6, 7, 6, 7, 6, 7, 6, 7,
    6, 7, 6, 7, 6, 7, 6, 7, 6, 7, 6, 7, 6, 7, 6, 7, 6, 7, 6, 7, 6, 7, 6, 7, 6, 0, 0, 206, 129, 0,
    0, 255, 255, 125, 1, 0, 0, 255, 255, 129, 112, 0, 4, 255, 255, 143, 128, 1, 8, 255, 255, 143,
    128, 1, 12, 255, 255, 143, 128, 1, 16, 255, 255, 143, 128, 1, 20, 255, 255, 129, 112, 0, 25,
    76, 77, 84, 0, 89, 83, 84, 0, 89, 87, 84, 0, 89, 80, 84, 0, 89, 68, 84, 0, 65, 75, 68, 84, 0,
    65, 75, 83, 84, 0, 10, 65, 75, 83, 84, 57, 65, 75, 68, 84, 44, 77, 51, 46, 50, 46, 48, 44, 77,
    49, 49, 46, 49, 46, 48, 10,
];

/// `Antarctica/Casey`.
#[verifier::opaque]
pub const ANTARCTICA_CASEY: [u8; 287] = [
    84, 90, 105, 102, 50, 0, 0, 0, 0, 0, 0, 0, 0, 0, 0, 0, 0, 0, 0, 0, 0, 0, 0, 0, 0, 0, 0, 0, 0,
    0, 0, 0, 0, 0, 0, 0, 0, 0, 0, 1, 0, 0, 0, 1, 0, 0, 0, 0, 0, 0, 0, 84, 90, 105, 102, 50, 0, 0,
    0, 0, 0, 0, 0, 0, 0, 0, 0, 0, 0, 0, 0, 0, 0, 0, 0, 0, 0, 0, 0, 0, 0, 0, 0, 0, 0, 0, 17, 0, 0,
    0, 3, 0, 0, 0, 12, 255, 255, 255, 255, 254, 30, 204, 128, 0, 0, 0, 0, 74, 218, 6, 32, 0, 0, 0,
    0, 75, 143, 202, 240, 0, 0, 0, 0, 78, 169, 156, 32, 0, 0, 0, 0, 79, 67, 205, 144, 0, 0, 0, 0,
    88, 10, 59, 128, 0, 0, 0, 0, 90, 164, 15, 16, 0, 0, 0, 0, 91, 185, 20, 64, 0, 0, 0, 0, 92,
    141, 29, 128, 0, 0, 0, 0, 93, 150, 69, 48, 0, 0, 0, 0, 94, 99, 197, 0, 0, 0, 0, 0, 95, 120,
    160, 60, 0, 0, 0, 0, 96, 76, 183, 80, 0, 0, 0, 0, 97, 88, 130, 60, 0, 0, 0, 0, 98, 44, 153,
    80, 0, 0, 0, 0, 99, 56, 100, 60, 0, 0, 0, 0, 100, 8, 177, 0, 1, 2, 1, 2, 1, 2, 1, 2, 1, 2, 1,
    2, 1, 2, 1, 2, 1, 0, 0, 0, 0, 0, 0, 0, 0, 112, 128, 0, 4, 0, 0, 154, 176, 0, 8, 45, 48, 48, 0,
    43, 48, 56, 0, 43, 49, 49, 0, 10, 60, 43, 48, 56, 62, 45, 56, 10,
];

/// `Antarctica/Davis`.
#[verifier::opaque]
pub const ANTARCTICA_DAVIS: [u8; 197] = [
    84, 90, 105, 102, 50, 0, 0, 0, 0, 0, 0, 0, 0, 0, 0, 0, 0, 0, 0, 0, 0, 0, 0, 0, 0, 0, 0, 0, 0,
    0, 0, 0, 0, 0, 0, 0, 0, 0, 0, 1, 0, 0, 0, 1, 0, 0, 0, 0, 0, 0, 0, 84, 90, 105, 102, 50, 0, 0,
    0, 0, 0, 0, 0, 0, 0, 0, 0, 0, 0, 0, 0, 0, 0, 0, 0, 0, 0, 0, 0, 0, 0, 0, 0, 0, 0, 0, 7, 0, 0,
    0, 3, 0, 0, 0, 12, 255, 255, 255, 255, 231, 156, 64, 0, 255, 255, 255, 255, 246, 71, 223, 16,
    255, 255, 255, 255, 254, 71, 171, 0, 0, 0, 0, 0, 74, 218, 20, 48, 0, 0, 0, 0, 75, 151, 250,
    64, 0, 0, 0, 0, 78, 169, 170, 48, 0, 0, 0, 0, 79, 67, 247, 192, 1, 0, 1, 2, 1, 2, 1, 0, 0, 0,
    0, 0, 0, 0, 0, 98, 112, 0, 4, 0, 0, 70, 80, 0, 8, 45, 48, 48, 0, 43, 48, 55, 0, 43, 48, 53, 0,
    10, 60, 43, 48, 55, 62, 45, 55, 10,
];

/// `Antarctica/Macquarie`.
#[verifier::opaque]
pub const ANTARCTICA_MACQUARIE: [u8; 976] = [
    84, 90, 105, 102, 50, 0, 0, 0, 0, 0, 0, 0, 0, 0, 0, 0, 0, 0, 0, 0, 0, 0, 0, 0, 0, 0, 0, 0, 0,
    0, 0, 0, 0, 0, 0, 0, 0, 0, 0, 1, 0, 0, 0, 1, 0, 0, 0, 0, 0, 0, 0, 84, 90, 105, 102, 50, 0, 0,
    0, 0, 0, 0, 0, 0, 0, 0, 0, 0, 0, 0, 0, 0, 0, 0, 0, 0, 0, 0, 0, 0, 0, 0, 0, 0, 0, 0, 91, 0, 0,
    0, 3, 0, 0, 0, 14, 255, 255, 255, 255, 124, 5, 22, 0, 255, 255, 255, 255, 155, 213, 120, 128,
    255, 255, 255, 255, 156, 188, 47, 0, 255, 255, 255, 255, 160, 135, 180, 96, 255, 255, 255,
    255, 215, 12, 104, 0, 255, 255, 255, 255, 251, 194, 141, 0, 255, 255, 255, 255, 252, 178, 126,
    0, 255, 255, 255, 255, 253, 199, 89, 0, 255, 255, 255, 255, 254, 118, 176, 128, 255, 255, 255,
    255, 255, 167, 59, 0, 0, 0, 0, 0, 0, 86, 146, 128, 0, 0, 0, 0, 1, 135, 29, 0, 0, 0, 0, 0, 2,
    63, 175, 0, 0, 0, 0, 0, 3, 112, 57, 128, 0, 0, 0, 0, 4, 13, 28, 0, 0, 0, 0, 0, 5, 80, 27, 128,
    0, 0, 0, 0, 5, 246, 56, 128, 0, 0, 0, 0, 7, 47, 253, 128, 0, 0, 0, 0, 7, 214, 26, 128, 0, 0,
    0, 0, 9, 15, 223, 128, 0, 0, 0, 0, 9, 181, 252, 128, 0, 0, 0, 0, 10, 239, 193, 128, 0, 0, 0,
    0, 11, 159, 25, 0, 0, 0, 0, 0, 12, 216, 222, 0, 0, 0, 0, 0, 13, 126, 251, 0, 0, 0, 0, 0, 14,
    184, 192, 0, 0, 0, 0, 0, 15, 94, 221, 0, 0, 0, 0, 0, 16, 152, 162, 0, 0, 0, 0, 0, 17, 62, 191,
    0, 0, 0, 0, 0, 18, 120, 132, 0, 0, 0, 0, 0, 19, 30, 161, 0, 0, 0, 0, 0, 20, 88, 102, 0, 0, 0,
    0, 0, 20, 254, 131, 0, 0, 0, 0, 0, 22, 56, 72, 0, 0, 0, 0, 0, 23, 3, 79, 0, 0, 0, 0, 0, 24,
    33, 100, 128, 0, 0, 0, 0, 24, 227, 49, 0, 0, 0, 0, 0, 26, 1, 70, 128, 0, 0, 0, 0, 26, 167, 99,
    128, 0, 0, 0, 0, 27, 225, 40, 128, 0, 0, 0, 0, 28, 135, 69, 128, 0, 0, 0, 0, 29, 193, 10, 128,
    0, 0, 0, 0, 30, 103, 39, 128, 0, 0, 0, 0, 31, 151, 178, 0, 0, 0, 0, 0, 32, 89, 126, 128, 0, 0,
    0, 0, 33, 128, 206, 128, 0, 0, 0, 0, 34, 66, 155, 0, 0, 0, 0, 0, 35, 105, 235, 0, 0, 0, 0, 0,
    36, 34, 125, 0, 0, 0, 0, 0, 37, 73, 205, 0, 0, 0, 0, 0, 38, 2, 95, 0, 0, 0, 0, 0, 39, 41, 175,
    0, 0, 0, 0, 0, 39, 244, 182, 0, 0, 0, 0, 0, 40, 237, 225, 128, 0, 0, 0, 0, 41, 212, 152, 0, 0,
    0, 0, 0, 42, 205, 195, 128, 0, 0, 0, 0, 43, 180, 122, 0, 0, 0, 0, 0, 44, 173, 165, 128, 0, 0,
    0, 0, 45, 148, 92, 0, 0, 0, 0, 0, 46, 141, 135, 128, 0, 0, 0, 0, 47, 116, 62, 0, 0, 0, 0, 0,
    48, 109, 105, 128, 0, 0, 0, 0, 49, 93, 90, 128, 0, 0, 0, 0, 50, 86, 134, 0, 0, 0, 0, 0, 51,
    61, 60, 128, 0, 0, 0, 0, 52, 54, 104, 0, 0, 0, 0, 0, 53, 29, 30, 128, 0, 0, 0, 0, 54, 22, 74,
    0, 0, 0, 0, 0, 54, 253, 0, 128, 0, 0, 0, 0, 55, 246, 44, 0, 0, 0, 0, 0, 56, 220, 226, 128, 0,
    0, 0, 0, 57, 167, 233, 128, 0, 0, 0, 0, 58, 188, 196, 128, 0, 0, 0, 0, 59, 191, 42, 128, 0, 0,
    0, 0, 60, 165, 225, 0, 0, 0, 0, 0, 61, 159, 12, 128, 0, 0, 0, 0, 62, 133, 195, 0, 0, 0, 0, 0,
    63, 126, 238, 128, 0, 0, 0, 0, 64, 101, 165, 0, 0, 0, 0, 0, 65, 94, 208, 128, 0, 0, 0, 0, 66,
    69, 135, 0, 0, 0, 0, 0, 67, 62, 178, 128, 0, 0, 0, 0, 68, 46, 163, 128, 0, 0, 0, 0, 69, 30,
    148, 128, 0, 0, 0, 0, 70, 5, 75, 0, 0, 0, 0, 0, 71, 7, 177, 0, 0, 0, 0, 0, 71, 247, 162, 0, 0,
    0, 0, 0, 72, 231, 147, 0, 0, 0, 0, 0, 73, 215, 132, 0, 0, 0, 0, 0, 74, 199, 117, 0, 0, 0, 0,
    0, 77, 29, 211, 208, 1, 2, 1, 0, 1, 2, 1, 2, 1, 2, 1, 2, 1, 2, 1, 2, 1, 2, 1, 2, 1, 2, 1, 2,
    1, 2, 1, 2, 1, 2, 1, 2, 1, 2, 1, 2, 1, 2, 1, 2, 1, 2, 1, 2, 1, 2, 1, 2, 1, 2, 1, 2, 1, 2, 1,
    2, 1, 2, 1, 2, 1, 2, 1, 2, 1, 2, 1, 2, 1, 2, 1, 2, 1, 2, 1, 2, 1, 2, 1, 2, 1, 2, 1, 2, 1, 2,
    1, 2, 1, 2, 2, 0, 0, 0, 0, 0, 0, 0, 0, 140, 160, 0, 4, 0, 0, 154, 176, 1, 9, 45, 48, 48, 0,
    65, 69, 83, 84, 0, 65, 69, 68, 84, 0, 10, 65, 69, 83, 84, 45, 49, 48, 65, 69, 68, 84, 44, 77,
    49, 48, 46, 49, 46, 48, 44, 77, 52, 46, 49, 46, 48, 47, 51, 10,
];

/// `Antarctica/Mawson`.
#[verifier::opaque]
pub const ANTARCTICA_MAWSON: [u8; 152] = [
    84, 90, 105, 102, 50, 0, 0, 0, 0, 0, 0, 0, 0, 0, 0, 0, 0, 0, 0, 0, 0, 0, 0, 0, 0, 0, 0, 0, 0,
    0, 0, 0, 0, 0, 0, 0, 0, 0, 0, 1, 0, 0, 0, 1, 0, 0, 0, 0, 0, 0, 0, 84, 90, 105, 102, 50, 0, 0,
    0, 0, 0, 0, 0, 0, 0, 0, 0, 0, 0, 0, 0, 0, 0, 0, 0, 0, 0, 0, 0, 0, 0, 0, 0, 0, 0, 0, 2, 0, 0,
    0, 3, 0, 0, 0, 12, 255, 255, 255, 255, 226, 32, 50, 128, 0, 0, 0, 0, 74, 218, 34, 64, 1, 2, 0,
    0, 0, 0, 0, 0, 0, 0, 84, 96, 0, 4, 0, 0, 70, 80, 0, 8, 45, 48, 48, 0, 43, 48, 54, 0, 43, 48,
    53, 0, 10, 60, 43, 48, 53, 62, 45, 53, 10,
];

/// `Antarctica/Palmer`.
#[verifier::opaque]
pub const ANTARCTICA_PALMER: [u8; 887] = [
    84, 90, 105, 102, 50, 0, 0, 0, 0, 0, 0, 0, 0, 0, 0, 0, 0, 0, 0, 0, 0, 0, 0, 0, 0, 0, 0, 0, 0,
    0, 0, 0, 0, 0, 0, 0, 0, 0, 0, 1, 0, 0, 0, 1, 0, 0, 0, 0, 0, 0, 0, 84, 90, 105, 102, 50, 0, 0,
    0, 0, 0, 0, 0, 0, 0, 0, 0, 0, 0, 0, 0, 0, 0, 0, 0, 0, 0, 0, 0, 0, 0, 0, 0, 0, 0, 0, 82, 0, 0,
    0, 5, 0, 0, 0, 16, 255, 255, 255, 255, 246, 152, 173, 0, 255, 255, 255, 255, 246, 230, 159,
    176, 255, 255, 255, 255, 248, 19, 67, 192, 255, 255, 255, 255, 248, 199, 211, 48, 255, 255,
    255, 255, 249, 244, 119, 64, 255, 255, 255, 255, 250, 211, 54, 176, 255, 255, 255, 255, 251,
    195, 53, 192, 255, 255, 255, 255, 252, 188, 83, 48, 255, 255, 255, 255, 253, 172, 82, 64, 255,
    255, 255, 255, 254, 156, 53, 48, 255, 255, 255, 255, 255, 140, 52, 64, 0, 0, 0, 0, 7, 163, 74,
    176, 0, 0, 0, 0, 8, 36, 111, 160, 0, 0, 0, 0, 23, 48, 188, 176, 0, 0, 0, 0, 24, 6, 93, 192, 0,
    0, 0, 0, 24, 209, 86, 176, 0, 0, 0, 0, 25, 230, 63, 192, 0, 0, 0, 0, 26, 177, 56, 176, 0, 0,
    0, 0, 27, 207, 92, 64, 0, 0, 0, 0, 28, 145, 26, 176, 0, 0, 0, 0, 29, 175, 62, 64, 0, 0, 0, 0,
    30, 112, 252, 176, 0, 0, 0, 0, 31, 143, 32, 64, 0, 0, 0, 0, 32, 127, 3, 48, 0, 0, 0, 0, 33,
    111, 2, 64, 0, 0, 0, 0, 34, 57, 251, 48, 0, 0, 0, 0, 35, 78, 228, 64, 0, 0, 0, 0, 36, 25, 221,
    48, 0, 0, 0, 0, 37, 56, 0, 192, 0, 0, 0, 0, 37, 249, 191, 48, 0, 0, 0, 0, 38, 242, 248, 192,
    0, 0, 0, 0, 39, 217, 161, 48, 0, 0, 0, 0, 40, 247, 196, 192, 0, 0, 0, 0, 41, 194, 189, 176, 0,
    0, 0, 0, 42, 215, 166, 192, 0, 0, 0, 0, 43, 162, 159, 176, 0, 0, 0, 0, 44, 183, 136, 192, 0,
    0, 0, 0, 45, 130, 129, 176, 0, 0, 0, 0, 46, 151, 106, 192, 0, 0, 0, 0, 47, 98, 99, 176, 0, 0,
    0, 0, 48, 128, 135, 64, 0, 0, 0, 0, 49, 66, 69, 176, 0, 0, 0, 0, 50, 96, 105, 64, 0, 0, 0, 0,
    51, 61, 215, 48, 0, 0, 0, 0, 52, 64, 75, 64, 0, 0, 0, 0, 53, 11, 68, 48, 0, 0, 0, 0, 54, 13,
    184, 64, 0, 0, 0, 0, 55, 6, 213, 176, 0, 0, 0, 0, 56, 0, 15, 64, 0, 0, 0, 0, 56, 203, 8, 48,
    0, 0, 0, 0, 57, 233, 43, 192, 0, 0, 0, 0, 58, 170, 234, 48, 0, 0, 0, 0, 59, 201, 13, 192, 0,
    0, 0, 0, 60, 138, 204, 48, 0, 0, 0, 0, 61, 168, 239, 192, 0, 0, 0, 0, 62, 106, 174, 48, 0, 0,
    0, 0, 63, 136, 209, 192, 0, 0, 0, 0, 64, 83, 202, 176, 0, 0, 0, 0, 65, 104, 179, 192, 0, 0, 0,
    0, 66, 51, 172, 176, 0, 0, 0, 0, 67, 72, 149, 192, 0, 0, 0, 0, 68, 19, 142, 176, 0, 0, 0, 0,
    69, 49, 178, 64, 0, 0, 0, 0, 69, 243, 112, 176, 0, 0, 0, 0, 71, 17, 148, 64, 0, 0, 0, 0, 71,
    239, 2, 48, 0, 0, 0, 0, 72, 241, 118, 64, 0, 0, 0, 0, 73, 188, 111, 48, 0, 0, 0, 0, 74, 209,
    88, 64, 0, 0, 0, 0, 75, 184, 0, 176, 0, 0, 0, 0, 76, 177, 58, 64, 0, 0, 0, 0, 77, 198, 7, 48,
    0, 0, 0, 0, 78, 80, 130, 192, 0, 0, 0, 0, 79, 156, 174, 176, 0, 0, 0, 0, 80, 66, 217, 192, 0,
    0, 0, 0, 81, 124, 144, 176, 0, 0, 0, 0, 82, 43, 246, 64, 0, 0, 0, 0, 83, 92, 114, 176, 0, 0,
    0, 0, 84, 11, 216, 64, 0, 0, 0, 0, 87, 55, 230, 48, 0, 0, 0, 0, 87, 175, 236, 192, 0, 0, 0, 0,
    88, 67, 134, 176, 2, 1, 2, 1, 2, 1, 2, 1, 2, 1, 4, 3, 4, 1, 2, 1, 2, 1, 2, 1, 2, 1, 2, 1, 2,
    1, 2, 1, 2, 1, 2, 1, 2, 1, 2, 1, 2, 1, 2, 1, 2, 1, 2, 1, 2, 1, 2, 1, 2, 1, 2, 1, 2, 1, 2, 1,
    2, 1, 2, 1, 2, 1, 2, 1, 2, 1, 2, 1, 2, 1, 2, 1, 2, 1, 2, 1, 2, 1, 2, 1, 2, 4, 0, 0, 0, 0, 0,
    0, 255, 255, 199, 192, 0, 4, 255, 255, 213, 208, 1, 8, 255, 255, 227, 224, 1, 12, 255, 255,
    213, 208, 0, 8, 45, 48, 48, 0, 45, 48, 52, 0, 45, 48, 51, 0, 45, 48, 50, 0, 10, 60, 45, 48,
    51, 62, 51, 10,
];

/// `Antarctica/Rothera`.
#[verifier::opaque]
pub const ANTARCTICA_ROTHERA: [u8; 132] = [
    84, 90, 105, 102, 50, 0, 0, 0, 0, 0, 0, 0, 0, 0, 0, 0, 0, 0, 0, 0, 0, 0, 0, 0, 0, 0, 0, 0, 0,
    0, 0, 0, 0, 0, 0, 0, 0, 0, 0, 1, 0, 0, 0, 1, 0, 0, 0, 0, 0, 0, 0, 84, 90, 105, 102, 50, 0, 0,
    0, 0, 0, 0, 0, 0, 0, 0, 0, 0, 0, 0, 0, 0, 0, 0, 0, 0, 0, 0, 0, 0, 0, 0, 0, 0, 0, 0, 1, 0, 0,
    0, 2, 0, 0, 0, 8, 0, 0, 0, 0, 13, 2, 45, 0, 1, 0, 0, 0, 0, 0, 0, 255, 255, 213, 208, 0, 4, 45,
    48, 48, 0, 45, 48, 51, 0, 10, 60, 45, 48, 51, 62, 51, 10,
];

/// `Antarctica/Troll`.
#[verifier::opaque]
pub const ANTARCTICA_TROLL: [u8; 158] = [
    84, 90, 105, 102, 50, 0, 0, 0, 0, 0, 0, 0, 0, 0, 0, 0, 0, 0, 0, 0, 0, 0, 0, 0, 0, 0, 0, 0, 0,
    0, 0, 0, 0, 0, 0, 0, 0, 0, 0, 1, 0, 0, 0, 1, 0, 0, 0, 0, 0, 0, 0, 84, 90, 105, 102, 50, 0, 0,
    0, 0, 0, 0, 0, 0, 0, 0, 0, 0, 0, 0, 0, 0, 0, 0, 0, 0, 0, 0, 0, 0, 0, 0, 0, 0, 0, 0, 1, 0, 0,
    0, 2, 0, 0, 0, 8, 0, 0, 0, 0, 66, 13, 71, 0, 1, 0, 0, 0, 0, 0, 0, 0, 0, 0, 0, 0, 4, 45, 48,
    48, 0, 43, 48, 48, 0, 10, 60, 43, 48, 48, 62, 48, 60, 43, 48, 50, 62, 45, 50, 44, 77, 51, 46,
    53, 46, 48, 47, 49, 44, 77, 49, 48, 46, 53, 46, 48, 47, 51, 10,
];

/// `Antarctica/Vostok`.
#[verifier::opaque]
pub const ANTARCTICA_VOSTOK: [u8; 170] = [
    84, 90, 105, 102, 50, 0, 0, 0, 0, 0, 0, 0, 0, 0, 0, 0, 0, 0, 0, 0, 0, 0, 0, 0, 0, 0, 0, 0, 0,
    0, 0, 0, 0, 0, 0, 0, 0, 0, 0, 1, 0, 0, 0, 1, 0, 0, 0, 0, 0, 0, 0, 84, 90, 105, 102, 50, 0, 0,
    0, 0, 0, 0, 0, 0, 0, 0, 0, 0, 0, 0, 0, 0, 0, 0, 0, 0, 0, 0, 0, 0, 0, 0, 0, 0, 0, 0, 4, 0, 0,
    0, 3, 0, 0, 0, 12, 255, 255, 255, 255, 233, 88, 137, 128, 0, 0, 0, 0, 45, 77, 57, 16, 0, 0, 0,
    0, 46, 181, 133, 0, 0, 0, 0, 0, 101, 127, 69, 48, 1, 0, 1, 2, 0, 0, 0, 0, 0, 0, 0, 0, 98, 112,
    0, 4, 0, 0, 70, 80, 0, 8, 45, 48, 48, 0, 43, 48, 55, 0, 43, 48, 53, 0, 10, 60, 43, 48, 53, 62,
    45, 53, 10,
];

/// `Asia/Almaty`.
#[verifier::opaque]
pub const ASIA_ALMATY: [u8; 618] = [
    84, 90, 105, 102, 50, 0, 0, 0, 0, 0, 0, 0, 0, 0, 0, 0, 0, 0, 0, 0, 0, 0, 0, 0, 0, 0, 0, 0, 0,
    0, 0, 0, 0, 0, 0, 0, 0, 0, 0, 1, 0, 0, 0, 1, 0, 0, 0, 0, 0, 0, 0, 84, 90, 105, 102, 50, 0, 0,
    0, 0, 0, 0, 0, 0, 0, 0, 0, 0, 0, 0, 0, 0, 0, 0, 0, 0, 0, 0, 0, 0, 0, 0, 0, 0, 0, 0, 52, 0, 0,
    0, 5, 0, 0, 0, 16, 255, 255, 255, 255, 170, 25, 123, 220, 255, 255, 255, 255, 181, 163, 239,
    48, 0, 0, 0, 0, 21, 39, 125, 160, 0, 0, 0, 0, 22, 24, 178, 16, 0, 0, 0, 0, 23, 8, 177, 32, 0,
    0, 0, 0, 23, 249, 229, 144, 0, 0, 0, 0, 24, 233, 228, 160, 0, 0, 0, 0, 25, 219, 25, 16, 0, 0,
    0, 0, 26, 204, 105, 160, 0, 0, 0, 0, 27, 188, 118, 192, 0, 0, 0, 0, 28, 172, 103, 192, 0, 0,
    0, 0, 29, 156, 88, 192, 0, 0, 0, 0, 30, 140, 73, 192, 0, 0, 0, 0, 31, 124, 58, 192, 0, 0, 0,
    0, 32, 108, 43, 192, 0, 0, 0, 0, 33, 92, 28, 192, 0, 0, 0, 0, 34, 76, 13, 192, 0, 0, 0, 0, 35,
    59, 254, 192, 0, 0, 0, 0, 36, 43, 239, 192, 0, 0, 0, 0, 37, 27, 224, 192, 0, 0, 0, 0, 38, 11,
    209, 192, 0, 0, 0, 0, 39, 4, 253, 64, 0, 0, 0, 0, 39, 244, 238, 64, 0, 0, 0, 0, 40, 228, 237,
    80, 0, 0, 0, 0, 41, 120, 149, 80, 0, 0, 0, 0, 41, 212, 208, 64, 0, 0, 0, 0, 42, 196, 193, 64,
    0, 0, 0, 0, 43, 180, 178, 64, 0, 0, 0, 0, 44, 164, 163, 64, 0, 0, 0, 0, 45, 148, 148, 64, 0,
    0, 0, 0, 46, 132, 133, 64, 0, 0, 0, 0, 47, 116, 118, 64, 0, 0, 0, 0, 48, 100, 103, 64, 0, 0,
    0, 0, 49, 93, 146, 192, 0, 0, 0, 0, 50, 114, 109, 192, 0, 0, 0, 0, 51, 61, 116, 192, 0, 0, 0,
    0, 52, 82, 79, 192, 0, 0, 0, 0, 53, 29, 86, 192, 0, 0, 0, 0, 54, 50, 49, 192, 0, 0, 0, 0, 54,
    253, 56, 192, 0, 0, 0, 0, 56, 27, 78, 64, 0, 0, 0, 0, 56, 221, 26, 192, 0, 0, 0, 0, 57, 251,
    48, 64, 0, 0, 0, 0, 58, 188, 252, 192, 0, 0, 0, 0, 59, 219, 18, 64, 0, 0, 0, 0, 60, 166, 25,
    64, 0, 0, 0, 0, 61, 186, 244, 64, 0, 0, 0, 0, 62, 133, 251, 64, 0, 0, 0, 0, 63, 154, 214, 64,
    0, 0, 0, 0, 64, 101, 221, 64, 0, 0, 0, 0, 65, 131, 242, 192, 0, 0, 0, 0, 101, 224, 198, 32, 1,
    3, 2, 3, 2, 3, 2, 3, 2, 3, 2, 3, 2, 3, 2, 3, 2, 3, 2, 3, 2, 3, 4, 1, 3, 2, 3, 2, 3, 2, 3, 2,
    3, 2, 3, 2, 3, 2, 3, 2, 3, 2, 3, 2, 3, 2, 3, 2, 3, 2, 3, 1, 0, 0, 72, 36, 0, 0, 0, 0, 70, 80,
    0, 4, 0, 0, 98, 112, 1, 8, 0, 0, 84, 96, 0, 12, 0, 0, 84, 96, 1, 12, 76, 77, 84, 0, 43, 48,
    53, 0, 43, 48, 55, 0, 43, 48, 54, 0, 10, 60, 43, 48, 53, 62, 45, 53, 10,
];

/// `Asia/Amman`.
#[verifier::opaque]
pub const ASIA_AMMAN: [u8; 928] = [
    84, 90, 105, 102, 50, 0, 0, 0, 0, 0, 0, 0, 0, 0, 0, 0, 0, 0, 0, 0, 0, 0, 0, 0, 0, 0, 0, 0, 0,
    0, 0, 0, 0, 0, 0, 0, 0, 0, 0, 1, 0, 0, 0, 1, 0, 0, 0, 0, 0, 0, 0, 84, 90, 105, 102, 50, 0, 0,
    0, 0, 0, 0, 0, 0, 0, 0, 0, 0, 0, 0, 0, 0, 0, 0, 0, 0, 0, 0, 0, 0, 0, 0, 0, 0, 0, 0, 87, 0, 0,
    0, 4, 0, 0, 0, 17, 255, 255, 255, 255, 182, 163, 214, 208, 0, 0, 0, 0, 6, 114, 121, 224, 0, 0,
    0, 0, 7, 12, 171, 80, 0, 0, 0, 0, 8, 36, 55, 96, 0, 0, 0, 0, 8, 237, 222, 208, 0, 0, 0, 0, 10,
    5, 106, 224, 0, 0, 0, 0, 10, 207, 18, 80, 0, 0, 0, 0, 11, 231, 239, 224, 0, 0, 0, 0, 12, 218,
    117, 208, 0, 0, 0, 0, 13, 201, 35, 96, 0, 0, 0, 0, 14, 146, 202, 208, 0, 0, 0, 0, 15, 169, 5,
    96, 0, 0, 0, 0, 16, 114, 172, 208, 0, 0, 0, 0, 28, 173, 213, 96, 0, 0, 0, 0, 29, 159, 9, 208,
    0, 0, 0, 0, 30, 146, 253, 96, 0, 0, 0, 0, 31, 130, 224, 80, 0, 0, 0, 0, 32, 114, 223, 96, 0,
    0, 0, 0, 33, 98, 194, 80, 0, 0, 0, 0, 34, 82, 193, 96, 0, 0, 0, 0, 35, 75, 222, 208, 0, 0, 0,
    0, 36, 100, 188, 96, 0, 0, 0, 0, 37, 43, 192, 208, 0, 0, 0, 0, 38, 55, 111, 96, 0, 0, 0, 0,
    39, 11, 162, 208, 0, 0, 0, 0, 40, 11, 115, 224, 0, 0, 0, 0, 40, 226, 74, 80, 0, 0, 0, 0, 41,
    228, 190, 96, 0, 0, 0, 0, 42, 203, 102, 208, 0, 0, 0, 0, 43, 187, 101, 224, 0, 0, 0, 0, 44,
    171, 72, 208, 0, 0, 0, 0, 45, 155, 71, 224, 0, 0, 0, 0, 46, 120, 181, 208, 0, 0, 0, 0, 47,
    132, 100, 96, 0, 0, 0, 0, 48, 88, 165, 224, 0, 0, 0, 0, 49, 100, 70, 96, 0, 0, 0, 0, 50, 65,
    194, 96, 0, 0, 0, 0, 51, 68, 40, 96, 0, 0, 0, 0, 52, 33, 164, 96, 0, 0, 0, 0, 53, 36, 10, 96,
    0, 0, 0, 0, 54, 1, 134, 96, 0, 0, 0, 0, 55, 122, 147, 96, 0, 0, 0, 0, 55, 234, 162, 224, 0, 0,
    0, 0, 56, 226, 124, 224, 0, 0, 0, 0, 57, 211, 191, 96, 0, 0, 0, 0, 58, 194, 94, 224, 0, 0, 0,
    0, 59, 179, 161, 96, 0, 0, 0, 0, 60, 163, 146, 96, 0, 0, 0, 0, 61, 147, 131, 96, 0, 0, 0, 0,
    62, 131, 116, 96, 0, 0, 0, 0, 63, 152, 79, 96, 0, 0, 0, 0, 64, 99, 86, 96, 0, 0, 0, 0, 65,
    110, 246, 224, 0, 0, 0, 0, 66, 76, 114, 224, 0, 0, 0, 0, 67, 60, 99, 224, 0, 0, 0, 0, 68, 44,
    84, 224, 0, 0, 0, 0, 69, 65, 47, 224, 0, 0, 0, 0, 70, 12, 54, 224, 0, 0, 0, 0, 71, 33, 17,
    224, 0, 0, 0, 0, 71, 236, 24, 224, 0, 0, 0, 0, 73, 10, 46, 96, 0, 0, 0, 0, 73, 203, 250, 224,
    0, 0, 0, 0, 74, 234, 16, 96, 0, 0, 0, 0, 75, 171, 220, 224, 0, 0, 0, 0, 76, 201, 242, 96, 0,
    0, 0, 0, 77, 148, 249, 96, 0, 0, 0, 0, 78, 169, 212, 96, 0, 0, 0, 0, 79, 116, 219, 96, 0, 0,
    0, 0, 82, 179, 94, 80, 0, 0, 0, 0, 83, 52, 159, 96, 0, 0, 0, 0, 84, 82, 180, 224, 0, 0, 0, 0,
    85, 20, 129, 96, 0, 0, 0, 0, 86, 50, 150, 224, 0, 0, 0, 0, 86, 253, 157, 224, 0, 0, 0, 0, 88,
    18, 120, 224, 0, 0, 0, 0, 88, 221, 127, 224, 0, 0, 0, 0, 89, 242, 90, 224, 0, 0, 0, 0, 90,
    189, 97, 224, 0, 0, 0, 0, 91, 210, 60, 224, 0, 0, 0, 0, 92, 157, 67, 224, 0, 0, 0, 0, 93, 178,
    30, 224, 0, 0, 0, 0, 94, 125, 37, 224, 0, 0, 0, 0, 95, 155, 59, 96, 0, 0, 0, 0, 96, 93, 7,
    224, 0, 0, 0, 0, 97, 123, 29, 96, 0, 0, 0, 0, 98, 23, 255, 224, 0, 0, 0, 0, 99, 90, 255, 96,
    2, 1, 2, 1, 2, 1, 2, 1, 2, 1, 2, 1, 2, 1, 2, 1, 2, 1, 2, 1, 2, 1, 2, 1, 2, 1, 2, 1, 2, 1, 2,
    1, 2, 1, 2, 1, 2, 1, 2, 1, 2, 1, 2, 1, 2, 1, 2, 1, 2, 1, 2, 1, 2, 1, 2, 1, 2, 1, 2, 1, 2, 1,
    2, 1, 2, 1, 2, 1, 2, 1, 2, 1, 2, 1, 2, 1, 2, 1, 2, 1, 2, 1, 2, 1, 2, 1, 3, 0, 0, 33, 176, 0,
    0, 0, 0, 42, 48, 1, 4, 0, 0, 28, 32, 0, 9, 0, 0, 42, 48, 0, 13, 76, 77, 84, 0, 69, 69, 83, 84,
    0, 69, 69, 84, 0, 43, 48, 51, 0, 10, 60, 43, 48, 51, 62, 45, 51, 10,
];

/// `Asia/Anadyr`.
#[verifier::opaque]
pub const ASIA_ANADYR: [u8; 743] = [
    84, 90, 105, 102, 50, 0, 0, 0, 0, 0, 0, 0, 0, 0, 0, 0, 0, 0, 0, 0, 0, 0, 0, 0, 0, 0, 0, 0, 0,
    0, 0, 0, 0, 0, 0, 0, 0, 0, 0, 1, 0, 0, 0, 1, 0, 0, 0, 0, 0, 0, 0, 84, 90, 105, 102, 50, 0, 0,
    0, 0, 0, 0, 0, 0, 0, 0, 0, 0, 0, 0, 0, 0, 0, 0, 0, 0, 0, 0, 0, 0, 0, 0, 0, 0, 0, 0, 64, 0, 0,
    0, 7, 0, 0, 0, 20, 255, 255, 255, 255, 170, 25, 29, 156, 255, 255, 255, 255, 181, 163, 140,
    192, 0, 0, 0, 0, 21, 39, 27, 48, 0, 0, 0, 0, 22, 24, 79, 160, 0, 0, 0, 0, 23, 8, 78, 176, 0,
    0, 0, 0, 23, 249, 145, 48, 0, 0, 0, 0, 24, 233, 144, 64, 0, 0, 0, 0, 25, 218, 196, 176, 0, 0,
    0, 0, 26, 204, 21, 64, 0, 0, 0, 0, 27, 188, 34, 96, 0, 0, 0, 0, 28, 172, 19, 96, 0, 0, 0, 0,
    29, 156, 4, 96, 0, 0, 0, 0, 30, 139, 245, 96, 0, 0, 0, 0, 31, 123, 230, 96, 0, 0, 0, 0, 32,
    107, 215, 96, 0, 0, 0, 0, 33, 91, 200, 96, 0, 0, 0, 0, 34, 75, 185, 96, 0, 0, 0, 0, 35, 59,
    170, 96, 0, 0, 0, 0, 36, 43, 155, 96, 0, 0, 0, 0, 37, 27, 140, 96, 0, 0, 0, 0, 38, 11, 125,
    96, 0, 0, 0, 0, 39, 4, 168, 224, 0, 0, 0, 0, 39, 244, 153, 224, 0, 0, 0, 0, 40, 228, 152, 240,
    0, 0, 0, 0, 41, 120, 64, 240, 0, 0, 0, 0, 41, 212, 123, 224, 0, 0, 0, 0, 42, 196, 108, 224, 0,
    0, 0, 0, 43, 180, 93, 224, 0, 0, 0, 0, 44, 164, 78, 224, 0, 0, 0, 0, 45, 148, 63, 224, 0, 0,
    0, 0, 46, 132, 48, 224, 0, 0, 0, 0, 47, 116, 33, 224, 0, 0, 0, 0, 48, 100, 18, 224, 0, 0, 0,
    0, 49, 93, 62, 96, 0, 0, 0, 0, 50, 114, 25, 96, 0, 0, 0, 0, 51, 61, 32, 96, 0, 0, 0, 0, 52,
    81, 251, 96, 0, 0, 0, 0, 53, 29, 2, 96, 0, 0, 0, 0, 54, 49, 221, 96, 0, 0, 0, 0, 54, 252, 228,
    96, 0, 0, 0, 0, 56, 26, 249, 224, 0, 0, 0, 0, 56, 220, 198, 96, 0, 0, 0, 0, 57, 250, 219, 224,
    0, 0, 0, 0, 58, 188, 168, 96, 0, 0, 0, 0, 59, 218, 189, 224, 0, 0, 0, 0, 60, 165, 196, 224, 0,
    0, 0, 0, 61, 186, 159, 224, 0, 0, 0, 0, 62, 133, 166, 224, 0, 0, 0, 0, 63, 154, 129, 224, 0,
    0, 0, 0, 64, 101, 136, 224, 0, 0, 0, 0, 65, 131, 158, 96, 0, 0, 0, 0, 66, 69, 106, 224, 0, 0,
    0, 0, 67, 99, 128, 96, 0, 0, 0, 0, 68, 37, 76, 224, 0, 0, 0, 0, 69, 67, 98, 96, 0, 0, 0, 0,
    70, 5, 46, 224, 0, 0, 0, 0, 71, 35, 68, 96, 0, 0, 0, 0, 71, 238, 75, 96, 0, 0, 0, 0, 73, 3,
    38, 96, 0, 0, 0, 0, 73, 206, 45, 96, 0, 0, 0, 0, 74, 227, 8, 96, 0, 0, 0, 0, 75, 174, 15, 96,
    0, 0, 0, 0, 76, 204, 50, 240, 0, 0, 0, 0, 77, 141, 255, 112, 1, 3, 2, 3, 4, 1, 4, 1, 4, 1, 4,
    1, 4, 1, 4, 1, 4, 1, 4, 1, 4, 1, 5, 6, 1, 4, 1, 4, 1, 4, 1, 4, 1, 4, 1, 4, 1, 4, 1, 4, 1, 4,
    1, 4, 1, 4, 1, 4, 1, 4, 1, 4, 1, 4, 1, 4, 1, 4, 1, 4, 1, 5, 6, 1, 0, 0, 166, 100, 0, 0, 0, 0,
    168, 192, 0, 4, 0, 0, 196, 224, 1, 8, 0, 0, 182, 208, 0, 12, 0, 0, 182, 208, 1, 12, 0, 0, 168,
    192, 1, 4, 0, 0, 154, 176, 0, 16, 76, 77, 84, 0, 43, 49, 50, 0, 43, 49, 52, 0, 43, 49, 51, 0,
    43, 49, 49, 0, 10, 60, 43, 49, 50, 62, 45, 49, 50, 10,
];

/// `Asia/Aqtau`.
#[verifier::opaque]
pub const ASIA_AQTAU: [u8; 606] = [
    84, 90, 105, 102, 50, 0, 0, 0, 0, 0, 0, 0, 0, 0, 0, 0, 0, 0, 0, 0, 0, 0, 0, 0, 0, 0, 0, 0, 0,
    0, 0, 0, 0, 0, 0, 0, 0, 0, 0, 1, 0, 0, 0, 1, 0, 0, 0, 0, 0, 0, 0, 84, 90, 105, 102, 50, 0, 0,
    0, 0, 0, 0, 0, 0, 0, 0, 0, 0, 0, 0, 0, 0, 0, 0, 0, 0, 0, 0, 0, 0, 0, 0, 0, 0, 0, 0, 50, 0, 0,
    0, 6, 0, 0, 0, 16, 255, 255, 255, 255, 170, 25, 148, 224, 255, 255, 255, 255, 181, 163, 253,
    64, 0, 0, 0, 0, 22, 24, 206, 48, 0, 0, 0, 0, 23, 8, 177, 32, 0, 0, 0, 0, 23, 249, 243, 160, 0,
    0, 0, 0, 24, 233, 242, 176, 0, 0, 0, 0, 25, 219, 39, 32, 0, 0, 0, 0, 26, 204, 119, 176, 0, 0,
    0, 0, 27, 188, 132, 208, 0, 0, 0, 0, 28, 172, 117, 208, 0, 0, 0, 0, 29, 156, 102, 208, 0, 0,
    0, 0, 30, 140, 87, 208, 0, 0, 0, 0, 31, 124, 72, 208, 0, 0, 0, 0, 32, 108, 57, 208, 0, 0, 0,
    0, 33, 92, 42, 208, 0, 0, 0, 0, 34, 76, 27, 208, 0, 0, 0, 0, 35, 60, 12, 208, 0, 0, 0, 0, 36,
    43, 253, 208, 0, 0, 0, 0, 37, 27, 238, 208, 0, 0, 0, 0, 38, 11, 223, 208, 0, 0, 0, 0, 39, 5,
    11, 80, 0, 0, 0, 0, 39, 244, 252, 80, 0, 0, 0, 0, 40, 228, 251, 96, 0, 0, 0, 0, 41, 120, 163,
    96, 0, 0, 0, 0, 41, 212, 222, 80, 0, 0, 0, 0, 42, 196, 207, 80, 0, 0, 0, 0, 43, 180, 192, 80,
    0, 0, 0, 0, 44, 164, 177, 80, 0, 0, 0, 0, 45, 148, 162, 80, 0, 0, 0, 0, 46, 132, 147, 80, 0,
    0, 0, 0, 47, 116, 146, 96, 0, 0, 0, 0, 48, 100, 131, 96, 0, 0, 0, 0, 49, 93, 174, 224, 0, 0,
    0, 0, 50, 114, 137, 224, 0, 0, 0, 0, 51, 61, 144, 224, 0, 0, 0, 0, 52, 82, 107, 224, 0, 0, 0,
    0, 53, 29, 114, 224, 0, 0, 0, 0, 54, 50, 77, 224, 0, 0, 0, 0, 54, 253, 84, 224, 0, 0, 0, 0,
    56, 27, 106, 96, 0, 0, 0, 0, 56, 221, 54, 224, 0, 0, 0, 0, 57, 251, 76, 96, 0, 0, 0, 0, 58,
    189, 24, 224, 0, 0, 0, 0, 59, 219, 46, 96, 0, 0, 0, 0, 60, 166, 53, 96, 0, 0, 0, 0, 61, 187,
    16, 96, 0, 0, 0, 0, 62, 134, 23, 96, 0, 0, 0, 0, 63, 154, 242, 96, 0, 0, 0, 0, 64, 101, 249,
    96, 0, 0, 0, 0, 65, 132, 14, 224, 1, 2, 3, 4, 2, 4, 2, 4, 2, 4, 2, 4, 2, 4, 2, 4, 2, 4, 2, 4,
    2, 5, 1, 2, 4, 2, 4, 2, 4, 1, 5, 1, 5, 1, 5, 1, 5, 1, 5, 1, 5, 1, 5, 1, 5, 1, 5, 1, 5, 2, 0,
    0, 47, 32, 0, 0, 0, 0, 56, 64, 0, 4, 0, 0, 70, 80, 0, 8, 0, 0, 84, 96, 0, 12, 0, 0, 84, 96, 1,
    12, 0, 0, 70, 80, 1, 8, 76, 77, 84, 0, 43, 48, 52, 0, 43, 48, 53, 0, 43, 48, 54, 0, 10, 60,
    43, 48, 53, 62, 45, 53, 10,
];

/// `Asia/Aqtobe`.
#[verifier::opaque]
pub const ASIA_AQTOBE: [u8; 615] = [
    84, 90, 105, 102, 50, 0, 0, 0, 0, 0, 0, 0, 0, 0, 0, 0, 0, 0, 0, 0, 0, 0, 0, 0, 0, 0, 0, 0, 0,
    0, 0, 0, 0, 0, 0, 0, 0, 0, 0, 1, 0, 0, 0, 1, 0, 0, 0, 0, 0, 0, 0, 84, 90, 105, 102, 50, 0, 0,
    0, 0, 0, 0, 0, 0, 0, 0, 0, 0, 0, 0, 0, 0, 0, 0, 0, 0, 0, 0, 0, 0, 0, 0, 0, 0, 0, 0, 51, 0, 0,
    0, 6, 0, 0, 0, 16, 255, 255, 255, 255, 170, 25, 142, 104, 255, 255, 255, 255, 181, 163, 253,
    64, 0, 0, 0, 0, 21, 39, 139, 176, 0, 0, 0, 0, 22, 24, 192, 32, 0, 0, 0, 0, 23, 8, 177, 32, 0,
    0, 0, 0, 23, 249, 243, 160, 0, 0, 0, 0, 24, 233, 242, 176, 0, 0, 0, 0, 25, 219, 39, 32, 0, 0,
    0, 0, 26, 204, 119, 176, 0, 0, 0, 0, 27, 188, 132, 208, 0, 0, 0, 0, 28, 172, 117, 208, 0, 0,
    0, 0, 29, 156, 102, 208, 0, 0, 0, 0, 30, 140, 87, 208, 0, 0, 0, 0, 31, 124, 72, 208, 0, 0, 0,
    0, 32, 108, 57, 208, 0, 0, 0, 0, 33, 92, 42, 208, 0, 0, 0, 0, 34, 76, 27, 208, 0, 0, 0, 0, 35,
    60, 12, 208, 0, 0, 0, 0, 36, 43, 253, 208, 0, 0, 0, 0, 37, 27, 238, 208, 0, 0, 0, 0, 38, 11,
    223, 208, 0, 0, 0, 0, 39, 5, 11, 80, 0, 0, 0, 0, 39, 244, 252, 80, 0, 0, 0, 0, 40, 228, 251,
    96, 0, 0, 0, 0, 41, 120, 163, 96, 0, 0, 0, 0, 41, 212, 222, 80, 0, 0, 0, 0, 42, 196, 207, 80,
    0, 0, 0, 0, 43, 180, 192, 80, 0, 0, 0, 0, 44, 164, 177, 80, 0, 0, 0, 0, 45, 148, 162, 80, 0,
    0, 0, 0, 46, 132, 147, 80, 0, 0, 0, 0, 47, 116, 132, 80, 0, 0, 0, 0, 48, 100, 117, 80, 0, 0,
    0, 0, 49, 93, 160, 208, 0, 0, 0, 0, 50, 114, 123, 208, 0, 0, 0, 0, 51, 61, 130, 208, 0, 0, 0,
    0, 52, 82, 93, 208, 0, 0, 0, 0, 53, 29, 100, 208, 0, 0, 0, 0, 54, 50, 63, 208, 0, 0, 0, 0, 54,
    253, 70, 208, 0, 0, 0, 0, 56, 27, 92, 80, 0, 0, 0, 0, 56, 221, 40, 208, 0, 0, 0, 0, 57, 251,
    62, 80, 0, 0, 0, 0, 58, 189, 10, 208, 0, 0, 0, 0, 59, 219, 32, 80, 0, 0, 0, 0, 60, 166, 39,
    80, 0, 0, 0, 0, 61, 187, 2, 80, 0, 0, 0, 0, 62, 134, 9, 80, 0, 0, 0, 0, 63, 154, 228, 80, 0,
    0, 0, 0, 64, 101, 235, 80, 0, 0, 0, 0, 65, 132, 0, 208, 1, 2, 3, 4, 3, 2, 3, 2, 3, 2, 3, 2, 3,
    2, 3, 2, 3, 2, 3, 2, 3, 2, 5, 1, 2, 3, 2, 3, 2, 3, 2, 3, 2, 3, 2, 3, 2, 3, 2, 3, 2, 3, 2, 3,
    2, 3, 2, 3, 2, 3, 2, 0, 0, 53, 152, 0, 0, 0, 0, 56, 64, 0, 4, 0, 0, 70, 80, 0, 8, 0, 0, 84,
    96, 1, 12, 0, 0, 84, 96, 0, 12, 0, 0, 70, 80, 1, 8, 76, 77, 84, 0, 43, 48, 52, 0, 43, 48, 53,
    0, 43, 48, 54, 0, 10, 60, 43, 48, 53, 62, 45, 53, 10,
];

/// `Asia/Ashgabat`.
#[verifier::opaque]
pub const ASIA_ASHGABAT: [u8; 375] = [
    84, 90, 105, 102, 50, 0, 0, 0, 0, 0, 0, 0, 0, 0, 0, 0, 0, 0, 0, 0, 0, 0, 0, 0, 0, 0, 0, 0, 0,
    0, 0, 0, 0, 0, 0, 0, 0, 0, 0, 1, 0, 0, 0, 1, 0, 0, 0, 0, 0, 0, 0, 84, 90, 105, 102, 50, 0, 0,
    0, 0, 0, 0, 0, 0, 0, 0, 0, 0, 0, 0, 0, 0, 0, 0, 0, 0, 0, 0, 0, 0, 0, 0, 0, 0, 0, 0, 25, 0, 0,
    0, 5, 0, 0, 0, 16, 255, 255, 255, 255, 170, 25, 141, 68, 255, 255, 255, 255, 181, 163, 253,
    64, 0, 0, 0, 0, 21, 39, 139, 176, 0, 0, 0, 0, 22, 24, 192, 32, 0, 0, 0, 0, 23, 8, 191, 48, 0,
    0, 0, 0, 23, 249, 243, 160, 0, 0, 0, 0, 24, 233, 242, 176, 0, 0, 0, 0, 25, 219, 39, 32, 0, 0,
    0, 0, 26, 204, 119, 176, 0, 0, 0, 0, 27, 188, 132, 208, 0, 0, 0, 0, 28, 172, 117, 208, 0, 0,
    0, 0, 29, 156, 102, 208, 0, 0, 0, 0, 30, 140, 87, 208, 0, 0, 0, 0, 31, 124, 72, 208, 0, 0, 0,
    0, 32, 108, 57, 208, 0, 0, 0, 0, 33, 92, 42, 208, 0, 0, 0, 0, 34, 76, 27, 208, 0, 0, 0, 0, 35,
    60, 12, 208, 0, 0, 0, 0, 36, 43, 253, 208, 0, 0, 0, 0, 37, 27, 238, 208, 0, 0, 0, 0, 38, 11,
    223, 208, 0, 0, 0, 0, 39, 5, 11, 80, 0, 0, 0, 0, 39, 244, 252, 80, 0, 0, 0, 0, 40, 228, 251,
    96, 0, 0, 0, 0, 41, 120, 163, 96, 1, 3, 2, 3, 2, 3, 2, 3, 2, 3, 2, 3, 2, 3, 2, 3, 2, 3, 2, 3,
    2, 3, 4, 1, 3, 0, 0, 54, 188, 0, 0, 0, 0, 56, 64, 0, 4, 0, 0, 84, 96, 1, 8, 0, 0, 70, 80, 0,
    12, 0, 0, 70, 80, 1, 12, 76, 77, 84, 0, 43, 48, 52, 0, 43, 48, 54, 0, 43, 48, 53, 0, 10, 60,
    43, 48, 53, 62, 45, 53, 10,
];

/// `Asia/Atyrau`.
#[verifier::opaque]
pub const ASIA_ATYRAU: [u8; 616] = [
    84, 90, 105, 102, 50, 0, 0, 0, 0, 0, 0, 0, 0, 0, 0, 0, 0, 0, 0, 0, 0, 0, 0, 0, 0, 0, 0, 0, 0,
    0, 0, 0, 0, 0, 0, 0, 0, 0, 0, 1, 0, 0, 0, 1, 0, 0, 0, 0, 0, 0, 0, 84, 90, 105, 102, 50, 0, 0,
    0, 0, 0, 0, 0, 0, 0, 0, 0, 0, 0, 0, 0, 0, 0, 0, 0, 0, 0, 0, 0, 0, 0, 0, 0, 0, 0, 0, 50, 0, 0,
    0, 7, 0, 0, 0, 20, 255, 255, 255, 255, 170, 25, 147, 80, 255, 255, 255, 255, 181, 164, 11, 80,
    0, 0, 0, 0, 22, 24, 206, 48, 0, 0, 0, 0, 23, 8, 177, 32, 0, 0, 0, 0, 23, 249, 243, 160, 0, 0,
    0, 0, 24, 233, 242, 176, 0, 0, 0, 0, 25, 219, 39, 32, 0, 0, 0, 0, 26, 204, 119, 176, 0, 0, 0,
    0, 27, 188, 132, 208, 0, 0, 0, 0, 28, 172, 117, 208, 0, 0, 0, 0, 29, 156, 102, 208, 0, 0, 0,
    0, 30, 140, 87, 208, 0, 0, 0, 0, 31, 124, 72, 208, 0, 0, 0, 0, 32, 108, 57, 208, 0, 0, 0, 0,
    33, 92, 42, 208, 0, 0, 0, 0, 34, 76, 27, 208, 0, 0, 0, 0, 35, 60, 12, 208, 0, 0, 0, 0, 36, 43,
    253, 208, 0, 0, 0, 0, 37, 27, 238, 208, 0, 0, 0, 0, 38, 11, 223, 208, 0, 0, 0, 0, 39, 5, 11,
    80, 0, 0, 0, 0, 39, 244, 252, 80, 0, 0, 0, 0, 40, 228, 251, 96, 0, 0, 0, 0, 41, 120, 163, 96,
    0, 0, 0, 0, 41, 212, 222, 80, 0, 0, 0, 0, 42, 196, 207, 80, 0, 0, 0, 0, 43, 180, 192, 80, 0,
    0, 0, 0, 44, 164, 177, 80, 0, 0, 0, 0, 45, 148, 162, 80, 0, 0, 0, 0, 46, 132, 147, 80, 0, 0,
    0, 0, 47, 116, 132, 80, 0, 0, 0, 0, 48, 100, 117, 80, 0, 0, 0, 0, 49, 93, 160, 208, 0, 0, 0,
    0, 50, 114, 123, 208, 0, 0, 0, 0, 51, 61, 130, 208, 0, 0, 0, 0, 52, 82, 93, 208, 0, 0, 0, 0,
    53, 29, 100, 208, 0, 0, 0, 0, 54, 50, 63, 208, 0, 0, 0, 0, 54, 253, 70, 208, 0, 0, 0, 0, 56,
    27, 106, 96, 0, 0, 0, 0, 56, 221, 54, 224, 0, 0, 0, 0, 57, 251, 76, 96, 0, 0, 0, 0, 58, 189,
    24, 224, 0, 0, 0, 0, 59, 219, 46, 96, 0, 0, 0, 0, 60, 166, 53, 96, 0, 0, 0, 0, 61, 187, 16,
    96, 0, 0, 0, 0, 62, 134, 23, 96, 0, 0, 0, 0, 63, 154, 242, 96, 0, 0, 0, 0, 64, 101, 249, 96,
    0, 0, 0, 0, 65, 132, 14, 224, 1, 2, 3, 4, 2, 4, 2, 4, 2, 4, 2, 4, 2, 4, 2, 4, 2, 4, 2, 4, 2,
    5, 6, 2, 4, 2, 4, 2, 4, 2, 4, 2, 4, 2, 4, 2, 4, 2, 5, 6, 5, 6, 5, 6, 5, 6, 5, 6, 5, 2, 0, 0,
    48, 176, 0, 0, 0, 0, 42, 48, 0, 4, 0, 0, 70, 80, 0, 8, 0, 0, 84, 96, 0, 12, 0, 0, 84, 96, 1,
    12, 0, 0, 70, 80, 1, 8, 0, 0, 56, 64, 0, 16, 76, 77, 84, 0, 43, 48, 51, 0, 43, 48, 53, 0, 43,
    48, 54, 0, 43, 48, 52, 0, 10, 60, 43, 48, 53, 62, 45, 53, 10,
];

/// `Asia/Baghdad`.
#[verifier::opaque]
pub const ASIA_BAGHDAD: [u8; 630] = [
    84, 90, 105, 102, 50, 0, 0, 0, 0, 0, 0, 0, 0, 0, 0, 0, 0, 0, 0, 0, 0, 0, 0, 0, 0, 0, 0, 0, 0,
    0, 0, 0, 0, 0, 0, 0, 0, 0, 0, 1, 0, 0, 0, 1, 0, 0, 0, 0, 0, 0, 0, 84, 90, 105, 102, 50, 0, 0,
    0, 0, 0, 0, 0, 0, 0, 0, 0, 0, 0, 0, 0, 0, 0, 0, 0, 0, 0, 0, 0, 0, 0, 0, 0, 0, 0, 0, 54, 0, 0,
    0, 4, 0, 0, 0, 16, 255, 255, 255, 255, 105, 134, 177, 220, 255, 255, 255, 255, 158, 48, 60,
    224, 0, 0, 0, 0, 23, 48, 104, 80, 0, 0, 0, 0, 23, 250, 15, 192, 0, 0, 0, 0, 24, 232, 189, 80,
    0, 0, 0, 0, 25, 219, 67, 64, 0, 0, 0, 0, 26, 204, 147, 208, 0, 0, 0, 0, 27, 189, 200, 64, 0,
    0, 0, 0, 28, 173, 199, 80, 0, 0, 0, 0, 29, 156, 116, 224, 0, 0, 0, 0, 30, 140, 101, 224, 0, 0,
    0, 0, 31, 124, 86, 224, 0, 0, 0, 0, 32, 108, 71, 224, 0, 0, 0, 0, 33, 92, 56, 224, 0, 0, 0, 0,
    34, 76, 41, 224, 0, 0, 0, 0, 35, 60, 26, 224, 0, 0, 0, 0, 36, 44, 11, 224, 0, 0, 0, 0, 37, 27,
    252, 224, 0, 0, 0, 0, 38, 11, 237, 224, 0, 0, 0, 0, 39, 5, 25, 96, 0, 0, 0, 0, 39, 246, 120,
    0, 0, 0, 0, 0, 40, 231, 186, 128, 0, 0, 0, 0, 41, 216, 253, 0, 0, 0, 0, 0, 42, 202, 63, 128,
    0, 0, 0, 0, 43, 186, 48, 128, 0, 0, 0, 0, 44, 171, 115, 0, 0, 0, 0, 0, 45, 155, 100, 0, 0, 0,
    0, 0, 46, 140, 166, 128, 0, 0, 0, 0, 47, 124, 151, 128, 0, 0, 0, 0, 48, 109, 218, 0, 0, 0, 0,
    0, 49, 95, 28, 128, 0, 0, 0, 0, 50, 80, 95, 0, 0, 0, 0, 0, 51, 64, 80, 0, 0, 0, 0, 0, 52, 49,
    146, 128, 0, 0, 0, 0, 53, 33, 131, 128, 0, 0, 0, 0, 54, 18, 198, 0, 0, 0, 0, 0, 55, 2, 183, 0,
    0, 0, 0, 0, 55, 243, 249, 128, 0, 0, 0, 0, 56, 229, 60, 0, 0, 0, 0, 0, 57, 214, 126, 128, 0,
    0, 0, 0, 58, 198, 111, 128, 0, 0, 0, 0, 59, 183, 178, 0, 0, 0, 0, 0, 60, 167, 163, 0, 0, 0, 0,
    0, 61, 152, 229, 128, 0, 0, 0, 0, 62, 136, 214, 128, 0, 0, 0, 0, 63, 122, 25, 0, 0, 0, 0, 0,
    64, 107, 91, 128, 0, 0, 0, 0, 65, 92, 158, 0, 0, 0, 0, 0, 66, 76, 143, 0, 0, 0, 0, 0, 67, 61,
    209, 128, 0, 0, 0, 0, 68, 45, 194, 128, 0, 0, 0, 0, 69, 31, 5, 0, 0, 0, 0, 0, 70, 14, 246, 0,
    0, 0, 0, 0, 71, 0, 56, 128, 1, 2, 3, 2, 3, 2, 3, 2, 3, 2, 3, 2, 3, 2, 3, 2, 3, 2, 3, 2, 3, 2,
    3, 2, 3, 2, 3, 2, 3, 2, 3, 2, 3, 2, 3, 2, 3, 2, 3, 2, 3, 2, 3, 2, 3, 2, 3, 2, 3, 2, 3, 2, 3,
    2, 0, 0, 41, 164, 0, 0, 0, 0, 41, 160, 0, 4, 0, 0, 42, 48, 0, 8, 0, 0, 56, 64, 1, 12, 76, 77,
    84, 0, 66, 77, 84, 0, 43, 48, 51, 0, 43, 48, 52, 0, 10, 60, 43, 48, 51, 62, 45, 51, 10,
];

/// `Asia/Baku`.
#[verifier::opaque]
pub const ASIA_BAKU: [u8; 744] = [
    84, 90, 105, 102, 50, 0, 0, 0, 0, 0, 0, 0, 0, 0, 0, 0, 0, 0, 0, 0, 0, 0, 0, 0, 0, 0, 0, 0, 0,
    0, 0, 0, 0, 0, 0, 0, 0, 0, 0, 1, 0, 0, 0, 1, 0, 0, 0, 0, 0, 0, 0, 84, 90, 105, 102, 50, 0, 0,
    0, 0, 0, 0, 0, 0, 0, 0, 0, 0, 0, 0, 0, 0, 0, 0, 0, 0, 0, 0, 0, 0, 0, 0, 0, 0, 0, 0, 66, 0, 0,
    0, 5, 0, 0, 0, 16, 255, 255, 255, 255, 170, 25, 149, 68, 255, 255, 255, 255, 231, 218, 12, 80,
    0, 0, 0, 0, 21, 39, 153, 192, 0, 0, 0, 0, 22, 24, 206, 48, 0, 0, 0, 0, 23, 8, 205, 64, 0, 0,
    0, 0, 23, 250, 1, 176, 0, 0, 0, 0, 24, 234, 0, 192, 0, 0, 0, 0, 25, 219, 53, 48, 0, 0, 0, 0,
    26, 204, 133, 192, 0, 0, 0, 0, 27, 188, 146, 224, 0, 0, 0, 0, 28, 172, 131, 224, 0, 0, 0, 0,
    29, 156, 116, 224, 0, 0, 0, 0, 30, 140, 101, 224, 0, 0, 0, 0, 31, 124, 86, 224, 0, 0, 0, 0,
    32, 108, 71, 224, 0, 0, 0, 0, 33, 92, 56, 224, 0, 0, 0, 0, 34, 76, 41, 224, 0, 0, 0, 0, 35,
    60, 26, 224, 0, 0, 0, 0, 36, 44, 11, 224, 0, 0, 0, 0, 37, 27, 252, 224, 0, 0, 0, 0, 38, 11,
    237, 224, 0, 0, 0, 0, 39, 5, 25, 96, 0, 0, 0, 0, 39, 245, 10, 96, 0, 0, 0, 0, 40, 229, 9, 112,
    0, 0, 0, 0, 41, 212, 250, 112, 0, 0, 0, 0, 42, 196, 235, 112, 0, 0, 0, 0, 49, 93, 217, 16, 0,
    0, 0, 0, 50, 114, 180, 16, 0, 0, 0, 0, 51, 61, 173, 0, 0, 0, 0, 0, 52, 82, 136, 0, 0, 0, 0, 0,
    53, 29, 143, 0, 0, 0, 0, 0, 54, 50, 106, 0, 0, 0, 0, 0, 54, 253, 113, 0, 0, 0, 0, 0, 56, 27,
    134, 128, 0, 0, 0, 0, 56, 221, 83, 0, 0, 0, 0, 0, 57, 251, 104, 128, 0, 0, 0, 0, 58, 189, 53,
    0, 0, 0, 0, 0, 59, 219, 74, 128, 0, 0, 0, 0, 60, 166, 81, 128, 0, 0, 0, 0, 61, 187, 44, 128,
    0, 0, 0, 0, 62, 134, 51, 128, 0, 0, 0, 0, 63, 155, 14, 128, 0, 0, 0, 0, 64, 102, 21, 128, 0,
    0, 0, 0, 65, 132, 43, 0, 0, 0, 0, 0, 66, 69, 247, 128, 0, 0, 0, 0, 67, 100, 13, 0, 0, 0, 0, 0,
    68, 37, 217, 128, 0, 0, 0, 0, 69, 67, 239, 0, 0, 0, 0, 0, 70, 5, 187, 128, 0, 0, 0, 0, 71, 35,
    209, 0, 0, 0, 0, 0, 71, 238, 216, 0, 0, 0, 0, 0, 73, 3, 179, 0, 0, 0, 0, 0, 73, 206, 186, 0,
    0, 0, 0, 0, 74, 227, 149, 0, 0, 0, 0, 0, 75, 174, 156, 0, 0, 0, 0, 0, 76, 204, 177, 128, 0, 0,
    0, 0, 77, 142, 126, 0, 0, 0, 0, 0, 78, 172, 147, 128, 0, 0, 0, 0, 79, 110, 96, 0, 0, 0, 0, 0,
    80, 140, 117, 128, 0, 0, 0, 0, 81, 87, 124, 128, 0, 0, 0, 0, 82, 108, 87, 128, 0, 0, 0, 0, 83,
    55, 94, 128, 0, 0, 0, 0, 84, 76, 57, 128, 0, 0, 0, 0, 85, 23, 64, 128, 0, 0, 0, 0, 86, 44, 27,
    128, 1, 3, 2, 3, 2, 3, 2, 3, 2, 3, 2, 3, 2, 3, 2, 3, 2, 3, 2, 3, 2, 3, 4, 1, 4, 3, 2, 3, 2, 3,
    2, 3, 2, 3, 2, 3, 2, 3, 2, 3, 2, 3, 2, 3, 2, 3, 2, 3, 2, 3, 2, 3, 2, 3, 2, 3, 2, 3, 2, 3, 2,
    3, 2, 3, 2, 3, 0, 0, 46, 188, 0, 0, 0, 0, 42, 48, 0, 4, 0, 0, 70, 80, 1, 8, 0, 0, 56, 64, 0,
    12, 0, 0, 56, 64, 1, 12, 76, 77, 84, 0, 43, 48, 51, 0, 43, 48, 53, 0, 43, 48, 52, 0, 10, 60,
    43, 48, 52, 62, 45, 52, 10,
];

/// `Asia/Bangkok`.
#[verifier::opaque]
pub const ASIA_BANGKOK: [u8; 152] = [
    84, 90, 105, 102, 50, 0, 0, 0, 0, 0, 0, 0, 0, 0, 0, 0, 0, 0, 0, 0, 0, 0, 0, 0, 0, 0, 0, 0, 0,
    0, 0, 0, 0, 0, 0, 0, 0, 0, 0, 1, 0, 0, 0, 1, 0, 0, 0, 0, 0, 0, 0, 84, 90, 105, 102, 50, 0, 0,
    0, 0, 0, 0, 0, 0, 0, 0, 0, 0, 0, 0, 0, 0, 0, 0, 0, 0, 0, 0, 0, 0, 0, 0, 0, 0, 0, 0, 2, 0, 0,
    0, 3, 0, 0, 0, 12, 255, 255, 255, 255, 86, 182, 133, 196, 255, 255, 255, 255, 162, 106, 103,
    196, 1, 2, 0, 0, 94, 60, 0, 0, 0, 0, 94, 60, 0, 4, 0, 0, 98, 112, 0, 8, 76, 77, 84, 0, 66, 77,
    84, 0, 43, 48, 55, 0, 10, 60, 43, 48, 55, 62, 45, 55, 10,
];

/// `Asia/Barnaul`.
#[verifier::opaque]
pub const ASIA_BARNAUL: [u8; 753] = [
    84, 90, 105, 102, 50, 0, 0, 0, 0, 0, 0, 0, 0, 0, 0, 0, 0, 0, 0, 0, 0, 0, 0, 0, 0, 0, 0, 0, 0,
    0, 0, 0, 0, 0, 0, 0, 0, 0, 0, 1, 0, 0, 0, 1, 0, 0, 0, 0, 0, 0, 0, 84, 90, 105, 102, 50, 0, 0,
    0, 0, 0, 0, 0, 0, 0, 0, 0, 0, 0, 0, 0, 0, 0, 0, 0, 0, 0, 0, 0, 0, 0, 0, 0, 0, 0, 0, 67, 0, 0,
    0, 5, 0, 0, 0, 16, 255, 255, 255, 255, 161, 213, 125, 252, 255, 255, 255, 255, 181, 163, 225,
    32, 0, 0, 0, 0, 21, 39, 111, 144, 0, 0, 0, 0, 22, 24, 164, 0, 0, 0, 0, 0, 23, 8, 163, 16, 0,
    0, 0, 0, 23, 249, 215, 128, 0, 0, 0, 0, 24, 233, 214, 144, 0, 0, 0, 0, 25, 219, 11, 0, 0, 0,
    0, 0, 26, 204, 91, 144, 0, 0, 0, 0, 27, 188, 104, 176, 0, 0, 0, 0, 28, 172, 89, 176, 0, 0, 0,
    0, 29, 156, 74, 176, 0, 0, 0, 0, 30, 140, 59, 176, 0, 0, 0, 0, 31, 124, 44, 176, 0, 0, 0, 0,
    32, 108, 29, 176, 0, 0, 0, 0, 33, 92, 14, 176, 0, 0, 0, 0, 34, 75, 255, 176, 0, 0, 0, 0, 35,
    59, 240, 176, 0, 0, 0, 0, 36, 43, 225, 176, 0, 0, 0, 0, 37, 27, 210, 176, 0, 0, 0, 0, 38, 11,
    195, 176, 0, 0, 0, 0, 39, 4, 239, 48, 0, 0, 0, 0, 39, 244, 224, 48, 0, 0, 0, 0, 40, 228, 223,
    64, 0, 0, 0, 0, 41, 120, 135, 64, 0, 0, 0, 0, 41, 212, 194, 48, 0, 0, 0, 0, 42, 196, 179, 48,
    0, 0, 0, 0, 43, 180, 164, 48, 0, 0, 0, 0, 44, 164, 149, 48, 0, 0, 0, 0, 45, 148, 134, 48, 0,
    0, 0, 0, 46, 132, 119, 48, 0, 0, 0, 0, 47, 116, 104, 48, 0, 0, 0, 0, 47, 199, 76, 128, 0, 0,
    0, 0, 48, 100, 103, 64, 0, 0, 0, 0, 49, 93, 146, 192, 0, 0, 0, 0, 50, 114, 109, 192, 0, 0, 0,
    0, 51, 61, 116, 192, 0, 0, 0, 0, 52, 82, 79, 192, 0, 0, 0, 0, 53, 29, 86, 192, 0, 0, 0, 0, 54,
    50, 49, 192, 0, 0, 0, 0, 54, 253, 56, 192, 0, 0, 0, 0, 56, 27, 78, 64, 0, 0, 0, 0, 56, 221,
    26, 192, 0, 0, 0, 0, 57, 251, 48, 64, 0, 0, 0, 0, 58, 188, 252, 192, 0, 0, 0, 0, 59, 219, 18,
    64, 0, 0, 0, 0, 60, 166, 25, 64, 0, 0, 0, 0, 61, 186, 244, 64, 0, 0, 0, 0, 62, 133, 251, 64,
    0, 0, 0, 0, 63, 154, 214, 64, 0, 0, 0, 0, 64, 101, 221, 64, 0, 0, 0, 0, 65, 131, 242, 192, 0,
    0, 0, 0, 66, 69, 191, 64, 0, 0, 0, 0, 67, 99, 212, 192, 0, 0, 0, 0, 68, 37, 161, 64, 0, 0, 0,
    0, 69, 67, 182, 192, 0, 0, 0, 0, 70, 5, 131, 64, 0, 0, 0, 0, 71, 35, 152, 192, 0, 0, 0, 0, 71,
    238, 159, 192, 0, 0, 0, 0, 73, 3, 122, 192, 0, 0, 0, 0, 73, 206, 129, 192, 0, 0, 0, 0, 74,
    227, 92, 192, 0, 0, 0, 0, 75, 174, 99, 192, 0, 0, 0, 0, 76, 204, 121, 64, 0, 0, 0, 0, 77, 142,
    69, 192, 0, 0, 0, 0, 84, 75, 243, 48, 0, 0, 0, 0, 86, 246, 234, 64, 1, 3, 2, 3, 2, 3, 2, 3, 2,
    3, 2, 3, 2, 3, 2, 3, 2, 3, 2, 3, 2, 3, 4, 1, 3, 2, 3, 2, 3, 2, 3, 2, 4, 1, 4, 1, 4, 1, 4, 1,
    4, 1, 4, 1, 4, 1, 4, 1, 4, 1, 4, 1, 4, 1, 4, 1, 4, 1, 4, 1, 4, 1, 4, 1, 3, 1, 3, 0, 0, 78,
    132, 0, 0, 0, 0, 84, 96, 0, 4, 0, 0, 112, 128, 1, 8, 0, 0, 98, 112, 0, 12, 0, 0, 98, 112, 1,
    12, 76, 77, 84, 0, 43, 48, 54, 0, 43, 48, 56, 0, 43, 48, 55, 0, 10, 60, 43, 48, 55, 62, 45,
    55, 10,
];

/// `Asia/Beirut`.
#[verifier::opaque]
pub const ASIA_BEIRUT: [u8; 732] = [
    84, 90, 105, 102, 50, 0, 0, 0, 0, 0, 0, 0, 0, 0, 0, 0, 0, 0, 0, 0, 0, 0, 0, 0, 0, 0, 0, 0, 0,
    0, 0, 0, 0, 0, 0, 0, 0, 0, 0, 1, 0, 0, 0, 1, 0, 0, 0, 0, 0, 0, 0, 84, 90, 105, 102, 50, 0, 0,
    0, 0, 0, 0, 0, 0, 0, 0, 0, 0, 0, 0, 0, 0, 0, 0, 0, 0, 0, 0, 0, 0, 0, 0, 0, 0, 0, 0, 64, 0, 0,
    0, 3, 0, 0, 0, 13, 255, 255, 255, 255, 86, 182, 194, 184, 255, 255, 255, 255, 162, 101, 99,
    224, 255, 255, 255, 255, 163, 123, 130, 80, 255, 255, 255, 255, 164, 78, 128, 96, 255, 255,
    255, 255, 165, 63, 180, 208, 255, 255, 255, 255, 166, 37, 39, 224, 255, 255, 255, 255, 167,
    39, 127, 208, 255, 255, 255, 255, 168, 41, 243, 224, 255, 255, 255, 255, 168, 235, 178, 80,
    255, 255, 255, 255, 232, 42, 133, 224, 255, 255, 255, 255, 232, 244, 45, 80, 255, 255, 255,
    255, 234, 11, 185, 96, 255, 255, 255, 255, 234, 213, 96, 208, 255, 255, 255, 255, 235, 236,
    236, 224, 255, 255, 255, 255, 236, 182, 148, 80, 255, 255, 255, 255, 237, 207, 113, 224, 255,
    255, 255, 255, 238, 153, 25, 80, 255, 255, 255, 255, 239, 176, 165, 96, 255, 255, 255, 255,
    240, 122, 76, 208, 0, 0, 0, 0, 4, 166, 94, 96, 0, 0, 0, 0, 5, 43, 119, 208, 0, 0, 0, 0, 6, 67,
    3, 224, 0, 0, 0, 0, 7, 12, 171, 80, 0, 0, 0, 0, 8, 36, 55, 96, 0, 0, 0, 0, 8, 237, 222, 208,
    0, 0, 0, 0, 10, 5, 106, 224, 0, 0, 0, 0, 10, 207, 18, 80, 0, 0, 0, 0, 11, 231, 239, 224, 0, 0,
    0, 0, 12, 177, 151, 80, 0, 0, 0, 0, 13, 201, 35, 96, 0, 0, 0, 0, 14, 146, 202, 208, 0, 0, 0,
    0, 15, 169, 5, 96, 0, 0, 0, 0, 16, 114, 172, 208, 0, 0, 0, 0, 26, 244, 46, 224, 0, 0, 0, 0,
    27, 209, 156, 208, 0, 0, 0, 0, 28, 213, 98, 96, 0, 0, 0, 0, 29, 178, 208, 80, 0, 0, 0, 0, 30,
    182, 149, 224, 0, 0, 0, 0, 31, 148, 3, 208, 0, 0, 0, 0, 32, 151, 201, 96, 0, 0, 0, 0, 33, 117,
    55, 80, 0, 0, 0, 0, 34, 163, 44, 224, 0, 0, 0, 0, 35, 87, 188, 80, 0, 0, 0, 0, 36, 103, 95,
    96, 0, 0, 0, 0, 37, 56, 239, 208, 0, 0, 0, 0, 38, 60, 181, 96, 0, 0, 0, 0, 39, 26, 35, 80, 0,
    0, 0, 0, 40, 29, 232, 224, 0, 0, 0, 0, 40, 251, 86, 208, 0, 0, 0, 0, 42, 0, 109, 224, 0, 0, 0,
    0, 42, 206, 9, 208, 0, 0, 0, 0, 43, 180, 206, 96, 0, 0, 0, 0, 44, 164, 177, 80, 0, 0, 0, 0,
    45, 148, 176, 96, 0, 0, 0, 0, 46, 132, 147, 80, 0, 0, 0, 0, 47, 116, 146, 96, 0, 0, 0, 0, 48,
    100, 117, 80, 0, 0, 0, 0, 49, 93, 174, 224, 0, 0, 0, 0, 50, 77, 145, 208, 0, 0, 0, 0, 51, 61,
    144, 224, 0, 0, 0, 0, 52, 45, 115, 208, 0, 0, 0, 0, 53, 29, 114, 224, 0, 0, 0, 0, 54, 13, 85,
    208, 0, 0, 0, 0, 54, 253, 84, 224, 2, 1, 2, 1, 2, 1, 2, 1, 2, 1, 2, 1, 2, 1, 2, 1, 2, 1, 2, 1,
    2, 1, 2, 1, 2, 1, 2, 1, 2, 1, 2, 1, 2, 1, 2, 1, 2, 1, 2, 1, 2, 1, 2, 1, 2, 1, 2, 1, 2, 1, 2,
    1, 2, 1, 2, 1, 2, 1, 2, 1, 2, 1, 2, 1, 0, 0, 33, 72, 0, 0, 0, 0, 42, 48, 1, 4, 0, 0, 28, 32,
    0, 9, 76, 77, 84, 0, 69, 69, 83, 84, 0, 69, 69, 84, 0, 10, 69, 69, 84, 45, 50, 69, 69, 83, 84,
    44, 77, 51, 46, 53, 46, 48, 47, 48, 44, 77, 49, 48, 46, 53, 46, 48, 47, 48, 10,
];

/// `Asia/Bishkek`.
#[verifier::opaque]
pub const ASIA_BISHKEK: [u8; 618] = [
    84, 90, 105, 102, 50, 0, 0, 0, 0, 0, 0, 0, 0, 0, 0, 0, 0, 0, 0, 0, 0, 0, 0, 0, 0, 0, 0, 0, 0,
    0, 0, 0, 0, 0, 0, 0, 0, 0, 0, 1, 0, 0, 0, 1, 0, 0, 0, 0, 0, 0, 0, 84, 90, 105, 102, 50, 0, 0,
    0, 0, 0, 0, 0, 0, 0, 0, 0, 0, 0, 0, 0, 0, 0, 0, 0, 0, 0, 0, 0, 0, 0, 0, 0, 0, 0, 0, 52, 0, 0,
    0, 5, 0, 0, 0, 16, 255, 255, 255, 255, 170, 25, 126, 16, 255, 255, 255, 255, 181, 163, 239,
    48, 0, 0, 0, 0, 21, 39, 125, 160, 0, 0, 0, 0, 22, 24, 178, 16, 0, 0, 0, 0, 23, 8, 177, 32, 0,
    0, 0, 0, 23, 249, 229, 144, 0, 0, 0, 0, 24, 233, 228, 160, 0, 0, 0, 0, 25, 219, 25, 16, 0, 0,
    0, 0, 26, 204, 105, 160, 0, 0, 0, 0, 27, 188, 118, 192, 0, 0, 0, 0, 28, 172, 103, 192, 0, 0,
    0, 0, 29, 156, 88, 192, 0, 0, 0, 0, 30, 140, 73, 192, 0, 0, 0, 0, 31, 124, 58, 192, 0, 0, 0,
    0, 32, 108, 43, 192, 0, 0, 0, 0, 33, 92, 28, 192, 0, 0, 0, 0, 34, 76, 13, 192, 0, 0, 0, 0, 35,
    59, 254, 192, 0, 0, 0, 0, 36, 43, 239, 192, 0, 0, 0, 0, 37, 27, 224, 192, 0, 0, 0, 0, 38, 11,
    209, 192, 0, 0, 0, 0, 39, 4, 253, 64, 0, 0, 0, 0, 39, 244, 238, 64, 0, 0, 0, 0, 40, 190, 163,
    192, 0, 0, 0, 0, 41, 231, 55, 48, 0, 0, 0, 0, 42, 196, 165, 32, 0, 0, 0, 0, 43, 199, 25, 48,
    0, 0, 0, 0, 44, 164, 135, 32, 0, 0, 0, 0, 45, 166, 251, 48, 0, 0, 0, 0, 46, 132, 105, 32, 0,
    0, 0, 0, 47, 134, 221, 48, 0, 0, 0, 0, 48, 100, 75, 32, 0, 0, 0, 0, 49, 102, 191, 48, 0, 0, 0,
    0, 50, 77, 103, 160, 0, 0, 0, 0, 51, 61, 137, 216, 0, 0, 0, 0, 52, 82, 86, 200, 0, 0, 0, 0,
    53, 29, 107, 216, 0, 0, 0, 0, 54, 50, 56, 200, 0, 0, 0, 0, 54, 253, 77, 216, 0, 0, 0, 0, 56,
    27, 85, 72, 0, 0, 0, 0, 56, 221, 47, 216, 0, 0, 0, 0, 57, 251, 55, 72, 0, 0, 0, 0, 58, 189,
    17, 216, 0, 0, 0, 0, 59, 219, 25, 72, 0, 0, 0, 0, 60, 166, 46, 88, 0, 0, 0, 0, 61, 186, 251,
    72, 0, 0, 0, 0, 62, 134, 16, 88, 0, 0, 0, 0, 63, 154, 221, 72, 0, 0, 0, 0, 64, 101, 242, 88,
    0, 0, 0, 0, 65, 131, 249, 200, 0, 0, 0, 0, 66, 69, 212, 88, 0, 0, 0, 0, 66, 251, 146, 32, 1,
    3, 2, 3, 2, 3, 2, 3, 2, 3, 2, 3, 2, 3, 2, 3, 2, 3, 2, 3, 2, 3, 4, 1, 4, 1, 4, 1, 4, 1, 4, 1,
    4, 1, 4, 1, 4, 1, 4, 1, 4, 1, 4, 1, 4, 1, 4, 1, 4, 1, 4, 3, 0, 0, 69, 240, 0, 0, 0, 0, 70, 80,
    0, 4, 0, 0, 98, 112, 1, 8, 0, 0, 84, 96, 0, 12, 0, 0, 84, 96, 1, 12, 76, 77, 84, 0, 43, 48,
    53, 0, 43, 48, 55, 0, 43, 48, 54, 0, 10, 60, 43, 48, 54, 62, 45, 54, 10,
];

/// `Asia/Chita`.
#[verifier::opaque]
pub const ASIA_CHITA: [u8; 750] = [
    84, 90, 105, 102, 50, 0, 0, 0, 0, 0, 0, 0, 0, 0, 0, 0, 0, 0, 0, 0, 0, 0, 0, 0, 0, 0, 0, 0, 0,
    0, 0, 0, 0, 0, 0, 0, 0, 0, 0, 1, 0, 0, 0, 1, 0, 0, 0, 0, 0, 0, 0, 84, 90, 105, 102, 50, 0, 0,
    0, 0, 0, 0, 0, 0, 0, 0, 0, 0, 0, 0, 0, 0, 0, 0, 0, 0, 0, 0, 0, 0, 0, 0, 0, 0, 0, 0, 66, 0, 0,
    0, 6, 0, 0, 0, 16, 255, 255, 255, 255, 161, 219, 249, 160, 255, 255, 255, 255, 181, 163, 197,
    0, 0, 0, 0, 0, 21, 39, 83, 112, 0, 0, 0, 0, 22, 24, 135, 224, 0, 0, 0, 0, 23, 8, 134, 240, 0,
    0, 0, 0, 23, 249, 187, 96, 0, 0, 0, 0, 24, 233, 186, 112, 0, 0, 0, 0, 25, 218, 238, 224, 0, 0,
    0, 0, 26, 204, 63, 112, 0, 0, 0, 0, 27, 188, 76, 144, 0, 0, 0, 0, 28, 172, 61, 144, 0, 0, 0,
    0, 29, 156, 46, 144, 0, 0, 0, 0, 30, 140, 31, 144, 0, 0, 0, 0, 31, 124, 16, 144, 0, 0, 0, 0,
    32, 108, 1, 144, 0, 0, 0, 0, 33, 91, 242, 144, 0, 0, 0, 0, 34, 75, 227, 144, 0, 0, 0, 0, 35,
    59, 212, 144, 0, 0, 0, 0, 36, 43, 197, 144, 0, 0, 0, 0, 37, 27, 182, 144, 0, 0, 0, 0, 38, 11,
    167, 144, 0, 0, 0, 0, 39, 4, 211, 16, 0, 0, 0, 0, 39, 244, 196, 16, 0, 0, 0, 0, 40, 228, 195,
    32, 0, 0, 0, 0, 41, 120, 107, 32, 0, 0, 0, 0, 41, 212, 166, 16, 0, 0, 0, 0, 42, 196, 151, 16,
    0, 0, 0, 0, 43, 180, 136, 16, 0, 0, 0, 0, 44, 164, 121, 16, 0, 0, 0, 0, 45, 148, 106, 16, 0,
    0, 0, 0, 46, 132, 91, 16, 0, 0, 0, 0, 47, 116, 76, 16, 0, 0, 0, 0, 48, 100, 61, 16, 0, 0, 0,
    0, 49, 93, 104, 144, 0, 0, 0, 0, 50, 114, 67, 144, 0, 0, 0, 0, 51, 61, 74, 144, 0, 0, 0, 0,
    52, 82, 37, 144, 0, 0, 0, 0, 53, 29, 44, 144, 0, 0, 0, 0, 54, 50, 7, 144, 0, 0, 0, 0, 54, 253,
    14, 144, 0, 0, 0, 0, 56, 27, 36, 16, 0, 0, 0, 0, 56, 220, 240, 144, 0, 0, 0, 0, 57, 251, 6,
    16, 0, 0, 0, 0, 58, 188, 210, 144, 0, 0, 0, 0, 59, 218, 232, 16, 0, 0, 0, 0, 60, 165, 239, 16,
    0, 0, 0, 0, 61, 186, 202, 16, 0, 0, 0, 0, 62, 133, 209, 16, 0, 0, 0, 0, 63, 154, 172, 16, 0,
    0, 0, 0, 64, 101, 179, 16, 0, 0, 0, 0, 65, 131, 200, 144, 0, 0, 0, 0, 66, 69, 149, 16, 0, 0,
    0, 0, 67, 99, 170, 144, 0, 0, 0, 0, 68, 37, 119, 16, 0, 0, 0, 0, 69, 67, 140, 144, 0, 0, 0, 0,
    70, 5, 89, 16, 0, 0, 0, 0, 71, 35, 110, 144, 0, 0, 0, 0, 71, 238, 117, 144, 0, 0, 0, 0, 73, 3,
    80, 144, 0, 0, 0, 0, 73, 206, 87, 144, 0, 0, 0, 0, 74, 227, 50, 144, 0, 0, 0, 0, 75, 174, 57,
    144, 0, 0, 0, 0, 76, 204, 79, 16, 0, 0, 0, 0, 77, 142, 27, 144, 0, 0, 0, 0, 84, 75, 201, 0, 0,
    0, 0, 0, 86, 246, 206, 32, 1, 3, 2, 3, 2, 3, 2, 3, 2, 3, 2, 3, 2, 3, 2, 3, 2, 3, 2, 3, 2, 3,
    4, 1, 3, 2, 3, 2, 3, 2, 3, 2, 3, 2, 3, 2, 3, 2, 3, 2, 3, 2, 3, 2, 3, 2, 3, 2, 3, 2, 3, 2, 3,
    2, 3, 2, 3, 2, 3, 2, 3, 2, 3, 5, 1, 3, 0, 0, 106, 96, 0, 0, 0, 0, 112, 128, 0, 4, 0, 0, 140,
    160, 1, 8, 0, 0, 126, 144, 0, 12, 0, 0, 126, 144, 1, 12, 0, 0, 140, 160, 0, 8, 76, 77, 84, 0,
    43, 48, 56, 0, 43, 49, 48, 0, 43, 48, 57, 0, 10, 60, 43, 48, 57, 62, 45, 57, 10,
];

/// `Asia/Colombo`.
#[verifier::opaque]
pub const ASIA_COLOMBO: [u8; 247] = [
    84, 90, 105, 102, 50, 0, 0, 0, 0, 0, 0, 0, 0, 0, 0, 0, 0, 0, 0, 0, 0, 0, 0, 0, 0, 0, 0, 0, 0,
    0, 0, 0, 0, 0, 0, 0, 0, 0, 0, 1, 0, 0, 0, 1, 0, 0, 0, 0, 0, 0, 0, 84, 90, 105, 102, 50, 0, 0,
    0, 0, 0, 0, 0, 0, 0, 0, 0, 0, 0, 0, 0, 0, 0, 0, 0, 0, 0, 0, 0, 0, 0, 0, 0, 0, 0, 0, 8, 0, 0,
    0, 7, 0, 0, 0, 24, 255, 255, 255, 255, 86, 182, 153, 36, 255, 255, 255, 255, 135, 157, 189,
    28, 255, 255, 255, 255, 203, 90, 28, 40, 255, 255, 255, 255, 204, 149, 43, 160, 255, 255, 255,
    255, 210, 117, 128, 56, 0, 0, 0, 0, 49, 166, 0, 40, 0, 0, 0, 0, 50, 113, 0, 32, 0, 0, 0, 0,
    68, 63, 234, 40, 1, 2, 3, 4, 2, 5, 6, 2, 0, 0, 74, 220, 0, 0, 0, 0, 74, 228, 0, 4, 0, 0, 77,
    88, 0, 8, 0, 0, 84, 96, 1, 14, 0, 0, 91, 104, 1, 18, 0, 0, 91, 104, 0, 18, 0, 0, 84, 96, 0,
    14, 76, 77, 84, 0, 77, 77, 84, 0, 43, 48, 53, 51, 48, 0, 43, 48, 54, 0, 43, 48, 54, 51, 48, 0,
    10, 60, 43, 48, 53, 51, 48, 62, 45, 53, 58, 51, 48, 10,
];

/// `Asia/Damascus`.
#[verifier::opaque]
pub const ASIA_DAMASCUS: [u8; 1234] = [
    84, 90, 105, 102, 50, 0, 0, 0, 0, 0, 0, 0, 0, 0, 0, 0, 0, 0, 0, 0, 0, 0, 0, 0, 0, 0, 0, 0, 0,
    0, 0, 0, 0, 0, 0, 0, 0, 0, 0, 1, 0, 0, 0, 1, 0, 0, 0, 0, 0, 0, 0, 84, 90, 105, 102, 50, 0, 0,
    0, 0, 0, 0, 0, 0, 0, 0, 0, 0, 0, 0, 0, 0, 0, 0, 0, 0, 0, 0, 0, 0, 0, 0, 0, 0, 0, 0, 121, 0, 0,
    0, 4, 0, 0, 0, 17, 255, 255, 255, 255, 161, 242, 171, 120, 255, 255, 255, 255, 162, 129, 47,
    128, 255, 255, 255, 255, 163, 94, 157, 112, 255, 255, 255, 255, 164, 97, 17, 128, 255, 255,
    255, 255, 165, 62, 127, 112, 255, 255, 255, 255, 166, 64, 243, 128, 255, 255, 255, 255, 167,
    30, 97, 112, 255, 255, 255, 255, 168, 32, 213, 128, 255, 255, 255, 255, 169, 7, 125, 240, 255,
    255, 255, 255, 241, 143, 82, 0, 255, 255, 255, 255, 242, 91, 156, 112, 255, 255, 255, 255,
    243, 115, 40, 128, 255, 255, 255, 255, 244, 59, 126, 112, 255, 255, 255, 255, 245, 85, 173,
    128, 255, 255, 255, 255, 246, 31, 84, 240, 255, 255, 255, 255, 247, 54, 225, 0, 255, 255, 255,
    255, 247, 255, 54, 240, 255, 255, 255, 255, 249, 14, 218, 0, 255, 255, 255, 255, 249, 225,
    187, 240, 255, 255, 255, 255, 250, 249, 72, 0, 255, 255, 255, 255, 251, 194, 239, 112, 255,
    255, 255, 255, 252, 219, 205, 0, 255, 255, 255, 255, 253, 165, 116, 112, 255, 255, 255, 255,
    254, 189, 0, 128, 255, 255, 255, 255, 255, 134, 167, 240, 0, 0, 0, 0, 0, 158, 52, 0, 0, 0, 0,
    0, 1, 103, 219, 112, 0, 0, 0, 0, 2, 127, 103, 128, 0, 0, 0, 0, 3, 73, 14, 240, 0, 0, 0, 0, 4,
    97, 236, 128, 0, 0, 0, 0, 5, 43, 147, 240, 0, 0, 0, 0, 6, 67, 32, 0, 0, 0, 0, 0, 7, 12, 199,
    112, 0, 0, 0, 0, 8, 36, 83, 128, 0, 0, 0, 0, 8, 237, 250, 240, 0, 0, 0, 0, 10, 5, 135, 0, 0,
    0, 0, 0, 10, 207, 46, 112, 0, 0, 0, 0, 11, 232, 12, 0, 0, 0, 0, 0, 12, 177, 179, 112, 0, 0, 0,
    0, 13, 201, 63, 128, 0, 0, 0, 0, 14, 107, 89, 240, 0, 0, 0, 0, 15, 170, 115, 0, 0, 0, 0, 0,
    16, 76, 141, 112, 0, 0, 0, 0, 24, 244, 197, 0, 0, 0, 0, 0, 25, 219, 109, 112, 0, 0, 0, 0, 26,
    215, 74, 0, 0, 0, 0, 0, 27, 189, 242, 112, 0, 0, 0, 0, 30, 85, 35, 0, 0, 0, 0, 0, 31, 138,
    229, 112, 0, 0, 0, 0, 32, 71, 122, 0, 0, 0, 0, 0, 33, 137, 25, 240, 0, 0, 0, 0, 34, 60, 116,
    0, 0, 0, 0, 0, 35, 107, 158, 240, 0, 0, 0, 0, 36, 50, 191, 128, 0, 0, 0, 0, 37, 37, 69, 112,
    0, 0, 0, 0, 38, 21, 68, 128, 0, 0, 0, 0, 39, 5, 39, 112, 0, 0, 0, 0, 39, 246, 91, 224, 0, 0,
    0, 0, 40, 231, 144, 80, 0, 0, 0, 0, 41, 226, 27, 96, 0, 0, 0, 0, 42, 202, 21, 80, 0, 0, 0, 0,
    43, 178, 43, 96, 0, 0, 0, 0, 44, 163, 95, 208, 0, 0, 0, 0, 45, 155, 71, 224, 0, 0, 0, 0, 46,
    140, 124, 80, 0, 0, 0, 0, 47, 124, 123, 96, 0, 0, 0, 0, 48, 109, 175, 208, 0, 0, 0, 0, 49, 95,
    0, 96, 0, 0, 0, 0, 50, 80, 52, 208, 0, 0, 0, 0, 51, 62, 226, 96, 0, 0, 0, 0, 52, 49, 104, 80,
    0, 0, 0, 0, 53, 30, 196, 96, 0, 0, 0, 0, 54, 18, 155, 208, 0, 0, 0, 0, 55, 2, 154, 224, 0, 0,
    0, 0, 55, 243, 207, 80, 0, 0, 0, 0, 56, 229, 31, 224, 0, 0, 0, 0, 57, 214, 84, 80, 0, 0, 0, 0,
    58, 198, 83, 96, 0, 0, 0, 0, 59, 183, 135, 208, 0, 0, 0, 0, 60, 167, 134, 224, 0, 0, 0, 0, 61,
    152, 187, 80, 0, 0, 0, 0, 62, 136, 186, 96, 0, 0, 0, 0, 63, 121, 238, 208, 0, 0, 0, 0, 64,
    107, 63, 96, 0, 0, 0, 0, 65, 92, 115, 208, 0, 0, 0, 0, 66, 76, 114, 224, 0, 0, 0, 0, 67, 61,
    167, 80, 0, 0, 0, 0, 68, 45, 166, 96, 0, 0, 0, 0, 69, 18, 253, 80, 0, 0, 0, 0, 70, 12, 54,
    224, 0, 0, 0, 0, 71, 42, 62, 80, 0, 0, 0, 0, 71, 245, 83, 96, 0, 0, 0, 0, 73, 11, 113, 208, 0,
    0, 0, 0, 73, 203, 250, 224, 0, 0, 0, 0, 74, 234, 2, 80, 0, 0, 0, 0, 75, 181, 23, 96, 0, 0, 0,
    0, 76, 201, 228, 80, 0, 0, 0, 0, 77, 148, 249, 96, 0, 0, 0, 0, 78, 169, 198, 80, 0, 0, 0, 0,
    79, 116, 219, 96, 0, 0, 0, 0, 80, 137, 168, 80, 0, 0, 0, 0, 81, 84, 189, 96, 0, 0, 0, 0, 82,
    105, 138, 80, 0, 0, 0, 0, 83, 52, 159, 96, 0, 0, 0, 0, 84, 82, 166, 208, 0, 0, 0, 0, 85, 20,
    129, 96, 0, 0, 0, 0, 86, 50, 136, 208, 0, 0, 0, 0, 86, 244, 99, 96, 0, 0, 0, 0, 88, 18, 106,
    208, 0, 0, 0, 0, 88, 221, 127, 224, 0, 0, 0, 0, 89, 242, 76, 208, 0, 0, 0, 0, 90, 189, 97,
    224, 0, 0, 0, 0, 91, 210, 46, 208, 0, 0, 0, 0, 92, 157, 67, 224, 0, 0, 0, 0, 93, 178, 16, 208,
    0, 0, 0, 0, 94, 125, 37, 224, 0, 0, 0, 0, 95, 155, 45, 80, 0, 0, 0, 0, 96, 93, 7, 224, 0, 0,
    0, 0, 97, 123, 15, 80, 0, 0, 0, 0, 98, 60, 233, 224, 0, 0, 0, 0, 99, 90, 241, 80, 2, 1, 2, 1,
    2, 1, 2, 1, 2, 1, 2, 1, 2, 1, 2, 1, 2, 1, 2, 1, 2, 1, 2, 1, 2, 1, 2, 1, 2, 1, 2, 1, 2, 1, 2,
    1, 2, 1, 2, 1, 2, 1, 2, 1, 2, 1, 2, 1, 2, 1, 2, 1, 2, 1, 2, 1, 2, 1, 2, 1, 2, 1, 2, 1, 2, 1,
    2, 1, 2, 1, 2, 1, 2, 1, 2, 1, 2, 1, 2, 1, 2, 1, 2, 1, 2, 1, 2, 1, 2, 1, 2, 1, 2, 1, 2, 1, 2,
    1, 2, 1, 2, 1, 2, 1, 2, 1, 2, 1, 2, 1, 2, 1, 2, 1, 2, 1, 2, 1, 2, 1, 3, 0, 0, 34, 8, 0, 0, 0,
    0, 42, 48, 1, 4, 0, 0, 28, 32, 0, 9, 0, 0, 42, 48, 0, 13, 76, 77, 84, 0, 69, 69, 83, 84, 0,
    69, 69, 84, 0, 43, 48, 51, 0, 10, 60, 43, 48, 51, 62, 45, 51, 10,
];

/// `Asia/Dhaka`.
#[verifier::opaque]
pub const ASIA_DHAKA: [u8; 231] = [
    84, 90, 105, 102, 50, 0, 0, 0, 0, 0, 0, 0, 0, 0, 0, 0, 0, 0, 0, 0, 0, 0, 0, 0, 0, 0, 0, 0, 0,
    0, 0, 0, 0, 0, 0, 0, 0, 0, 0, 1, 0, 0, 0, 1, 0, 0, 0, 0, 0, 0, 0, 84, 90, 105, 102, 50, 0, 0,
    0, 0, 0, 0, 0, 0, 0, 0, 0, 0, 0, 0, 0, 0, 0, 0, 0, 0, 0, 0, 0, 0, 0, 0, 0, 0, 0, 0, 7, 0, 0,
    0, 6, 0, 0, 0, 28, 255, 255, 255, 255, 105, 134, 134, 188, 255, 255, 255, 255, 202, 219, 134,
    176, 255, 255, 255, 255, 204, 5, 113, 24, 255, 255, 255, 255, 204, 149, 50, 168, 255, 255,
    255, 255, 221, 168, 210, 152, 0, 0, 0, 0, 74, 59, 196, 16, 0, 0, 0, 0, 75, 60, 216, 144, 1, 2,
    3, 2, 4, 5, 4, 0, 0, 84, 196, 0, 0, 0, 0, 82, 208, 0, 4, 0, 0, 91, 104, 0, 8, 0, 0, 77, 88, 0,
    14, 0, 0, 84, 96, 0, 20, 0, 0, 98, 112, 1, 24, 76, 77, 84, 0, 72, 77, 84, 0, 43, 48, 54, 51,
    48, 0, 43, 48, 53, 51, 48, 0, 43, 48, 54, 0, 43, 48, 55, 0, 10, 60, 43, 48, 54, 62, 45, 54,
    10,
];

/// `Asia/Dili`.
#[verifier::opaque]
pub const ASIA_DILI: [u8; 170] = [
    84, 90, 105, 102, 50, 0, 0, 0, 0, 0, 0, 0, 0, 0, 0, 0, 0, 0, 0, 0, 0, 0, 0, 0, 0, 0, 0, 0, 0,
    0, 0, 0, 0, 0, 0, 0, 0, 0, 0, 1, 0, 0, 0, 1, 0, 0, 0, 0, 0, 0, 0, 84, 90, 105, 102, 50, 0, 0,
    0, 0, 0, 0, 0, 0, 0, 0, 0, 0, 0, 0, 0, 0, 0, 0, 0, 0, 0, 0, 0, 0, 0, 0, 0, 0, 0, 0, 4, 0, 0,
    0, 3, 0, 0, 0, 12, 255, 255, 255, 255, 146, 230, 30, 0, 255, 255, 255, 255, 203, 153, 50, 240,
    0, 0, 0, 0, 11, 234, 48, 112, 0, 0, 0, 0, 57, 195, 153, 0, 1, 2, 1, 2, 0, 0, 117, 188, 0, 0,
    0, 0, 112, 128, 0, 4, 0, 0, 126, 144, 0, 8, 76, 77, 84, 0, 43, 48, 56, 0, 43, 48, 57, 0, 10,
    60, 43, 48, 57, 62, 45, 57, 10,
];

/// `Asia/Dubai`.
#[verifier::opaque]
pub const ASIA_DUBAI: [u8; 133] = [
    84, 90, 105, 102, 50, 0, 0, 0, 0, 0, 0, 0, 0, 0, 0, 0, 0, 0, 0, 0, 0, 0, 0, 0, 0, 0, 0, 0, 0,
    0, 0, 0, 0, 0, 0, 0, 0, 0, 0, 1, 0, 0, 0, 1, 0, 0, 0, 0, 0, 0, 0, 84, 90, 105, 102, 50, 0, 0,
    0, 0, 0, 0, 0, 0, 0, 0, 0, 0, 0, 0, 0, 0, 0, 0, 0, 0, 0, 0, 0, 0, 0, 0, 0, 0, 0, 0, 1, 0, 0,
    0, 2, 0, 0, 0, 8, 255, 255, 255, 255, 161, 242, 153, 168, 1, 0, 0, 51, 216, 0, 0, 0, 0, 56,
    64, 0, 4, 76, 77, 84, 0, 43, 48, 52, 0, 10, 60, 43, 48, 52, 62, 45, 52, 10,
];

/// `Asia/Dushanbe`.
#[verifier::opaque]
pub const ASIA_DUSHANBE: [u8; 366] = [
    84, 90, 105, 102, 50, 0, 0, 0, 0, 0, 0, 0, 0, 0, 0, 0, 0, 0, 0, 0, 0, 0, 0, 0, 0, 0, 0, 0, 0,
    0, 0, 0, 0, 0, 0, 0, 0, 0, 0, 1, 0, 0, 0, 1, 0, 0, 0, 0, 0, 0, 0, 84, 90, 105, 102, 50, 0, 0,
    0, 0, 0, 0, 0, 0, 0, 0, 0, 0, 0, 0, 0, 0, 0, 0, 0, 0, 0, 0, 0, 0, 0, 0, 0, 0, 0, 0, 24, 0, 0,
    0, 5, 0, 0, 0, 16, 255, 255, 255, 255, 170, 25, 131, 128, 255, 255, 255, 255, 181, 163, 239,
    48, 0, 0, 0, 0, 21, 39, 125, 160, 0, 0, 0, 0, 22, 24, 178, 16, 0, 0, 0, 0, 23, 8, 177, 32, 0,
    0, 0, 0, 23, 249, 229, 144, 0, 0, 0, 0, 24, 233, 228, 160, 0, 0, 0, 0, 25, 219, 25, 16, 0, 0,
    0, 0, 26, 204, 105, 160, 0, 0, 0, 0, 27, 188, 118, 192, 0, 0, 0, 0, 28, 172, 103, 192, 0, 0,
    0, 0, 29, 156, 88, 192, 0, 0, 0, 0, 30, 140, 73, 192, 0, 0, 0, 0, 31, 124, 58, 192, 0, 0, 0,
    0, 32, 108, 43, 192, 0, 0, 0, 0, 33, 92, 28, 192, 0, 0, 0, 0, 34, 76, 13, 192, 0, 0, 0, 0, 35,
    59, 254, 192, 0, 0, 0, 0, 36, 43, 239, 192, 0, 0, 0, 0, 37, 27, 224, 192, 0, 0, 0, 0, 38, 11,
    209, 192, 0, 0, 0, 0, 39, 4, 253, 64, 0, 0, 0, 0, 39, 244, 238, 64, 0, 0, 0, 0, 40, 202, 143,
    80, 1, 3, 2, 3, 2, 3, 2, 3, 2, 3, 2, 3, 2, 3, 2, 3, 2, 3, 2, 3, 2, 3, 4, 1, 0, 0, 64, 128, 0,
    0, 0, 0, 70, 80, 0, 4, 0, 0, 98, 112, 1, 8, 0, 0, 84, 96, 0, 12, 0, 0, 84, 96, 1, 12, 76, 77,
    84, 0, 43, 48, 53, 0, 43, 48, 55, 0, 43, 48, 54, 0, 10, 60, 43, 48, 53, 62, 45, 53, 10,
];

/// `Asia/Famagusta`.
#[verifier::opaque]
pub const ASIA_FAMAGUSTA: [u8; 940] = [
    84, 90, 105, 102, 50, 0, 0, 0, 0, 0, 0, 0, 0, 0, 0, 0, 0, 0, 0, 0, 0, 0, 0, 0, 0, 0, 0, 0, 0,
    0, 0, 0, 0, 0, 0, 0, 0, 0, 0, 1, 0, 0, 0, 1, 0, 0, 0, 0, 0, 0, 0, 84, 90, 105, 102, 50, 0, 0,
    0, 0, 0, 0, 0, 0, 0, 0, 0, 0, 0, 0, 0, 0, 0, 0, 0, 0, 0, 0, 0, 0, 0, 0, 0, 0, 0, 0, 86, 0, 0,
    0, 4, 0, 0, 0, 17, 255, 255, 255, 255, 165, 119, 30, 44, 0, 0, 0, 0, 9, 237, 175, 224, 0, 0,
    0, 0, 10, 221, 146, 208, 0, 0, 0, 0, 11, 250, 100, 224, 0, 0, 0, 0, 12, 190, 198, 80, 0, 0, 0,
    0, 13, 164, 57, 96, 0, 0, 0, 0, 14, 138, 225, 208, 0, 0, 0, 0, 15, 132, 27, 96, 0, 0, 0, 0,
    16, 117, 79, 208, 0, 0, 0, 0, 17, 99, 253, 96, 0, 0, 0, 0, 18, 83, 224, 80, 0, 0, 0, 0, 19,
    77, 25, 224, 0, 0, 0, 0, 20, 51, 194, 80, 0, 0, 0, 0, 21, 35, 193, 96, 0, 0, 0, 0, 22, 19,
    164, 80, 0, 0, 0, 0, 23, 3, 163, 96, 0, 0, 0, 0, 23, 243, 134, 80, 0, 0, 0, 0, 24, 227, 133,
    96, 0, 0, 0, 0, 25, 211, 104, 80, 0, 0, 0, 0, 26, 195, 103, 96, 0, 0, 0, 0, 27, 188, 132, 208,
    0, 0, 0, 0, 28, 172, 131, 224, 0, 0, 0, 0, 29, 156, 102, 208, 0, 0, 0, 0, 30, 140, 101, 224,
    0, 0, 0, 0, 31, 124, 72, 208, 0, 0, 0, 0, 32, 108, 71, 224, 0, 0, 0, 0, 33, 92, 42, 208, 0, 0,
    0, 0, 34, 76, 41, 224, 0, 0, 0, 0, 35, 60, 12, 208, 0, 0, 0, 0, 36, 44, 11, 224, 0, 0, 0, 0,
    37, 27, 238, 208, 0, 0, 0, 0, 38, 11, 237, 224, 0, 0, 0, 0, 39, 5, 11, 80, 0, 0, 0, 0, 39,
    245, 10, 96, 0, 0, 0, 0, 40, 228, 237, 80, 0, 0, 0, 0, 41, 212, 236, 96, 0, 0, 0, 0, 42, 196,
    207, 80, 0, 0, 0, 0, 43, 180, 206, 96, 0, 0, 0, 0, 44, 164, 177, 80, 0, 0, 0, 0, 45, 148, 176,
    96, 0, 0, 0, 0, 46, 132, 147, 80, 0, 0, 0, 0, 47, 116, 146, 96, 0, 0, 0, 0, 48, 100, 117, 80,
    0, 0, 0, 0, 49, 93, 174, 224, 0, 0, 0, 0, 50, 77, 145, 208, 0, 0, 0, 0, 51, 61, 144, 224, 0,
    0, 0, 0, 52, 45, 115, 208, 0, 0, 0, 0, 53, 29, 114, 224, 0, 0, 0, 0, 54, 50, 120, 16, 0, 0, 0,
    0, 54, 253, 127, 16, 0, 0, 0, 0, 56, 27, 148, 144, 0, 0, 0, 0, 56, 221, 97, 16, 0, 0, 0, 0,
    57, 251, 118, 144, 0, 0, 0, 0, 58, 189, 67, 16, 0, 0, 0, 0, 59, 219, 88, 144, 0, 0, 0, 0, 60,
    166, 95, 144, 0, 0, 0, 0, 61, 187, 58, 144, 0, 0, 0, 0, 62, 134, 65, 144, 0, 0, 0, 0, 63, 155,
    28, 144, 0, 0, 0, 0, 64, 102, 35, 144, 0, 0, 0, 0, 65, 132, 57, 16, 0, 0, 0, 0, 66, 70, 5,
    144, 0, 0, 0, 0, 67, 100, 27, 16, 0, 0, 0, 0, 68, 37, 231, 144, 0, 0, 0, 0, 69, 67, 253, 16,
    0, 0, 0, 0, 70, 5, 201, 144, 0, 0, 0, 0, 71, 35, 223, 16, 0, 0, 0, 0, 71, 238, 230, 16, 0, 0,
    0, 0, 73, 3, 193, 16, 0, 0, 0, 0, 73, 206, 200, 16, 0, 0, 0, 0, 74, 227, 163, 16, 0, 0, 0, 0,
    75, 174, 170, 16, 0, 0, 0, 0, 76, 204, 191, 144, 0, 0, 0, 0, 77, 142, 140, 16, 0, 0, 0, 0, 78,
    172, 161, 144, 0, 0, 0, 0, 79, 110, 110, 16, 0, 0, 0, 0, 80, 140, 131, 144, 0, 0, 0, 0, 81,
    87, 138, 144, 0, 0, 0, 0, 82, 108, 101, 144, 0, 0, 0, 0, 83, 55, 108, 144, 0, 0, 0, 0, 84, 76,
    71, 144, 0, 0, 0, 0, 85, 23, 78, 144, 0, 0, 0, 0, 86, 44, 41, 144, 0, 0, 0, 0, 86, 247, 48,
    144, 0, 0, 0, 0, 87, 208, 127, 208, 0, 0, 0, 0, 89, 245, 40, 16, 2, 1, 2, 1, 2, 1, 2, 1, 2, 1,
    2, 1, 2, 1, 2, 1, 2, 1, 2, 1, 2, 1, 2, 1, 2, 1, 2, 1, 2, 1, 2, 1, 2, 1, 2, 1, 2, 1, 2, 1, 2,
    1, 2, 1, 2, 1, 2, 1, 2, 1, 2, 1, 2, 1, 2, 1, 2, 1, 2, 1, 2, 1, 2, 1, 2, 1, 2, 1, 2, 1, 2, 1,
    2, 1, 2, 1, 2, 1, 2, 1, 2, 1, 2, 1, 3, 2, 0, 0, 31, 212, 0, 0, 0, 0, 42, 48, 1, 4, 0, 0, 28,
    32, 0, 9, 0, 0, 42, 48, 0, 13, 76, 77, 84, 0, 69, 69, 83, 84, 0, 69, 69, 84, 0, 43, 48, 51, 0,
    10, 69, 69, 84, 45, 50, 69, 69, 83, 84, 44, 77, 51, 46, 53, 46, 48, 47, 51, 44, 77, 49, 48,
    46, 53, 46, 48, 47, 52, 10,
];

/// `Asia/Gaza`.
#[verifier::opaque]
pub const ASIA_GAZA: [u8; 2950] = [
    84, 90, 105, 102, 51, 0, 0, 0, 0, 0, 0, 0, 0, 0, 0, 0, 0, 0, 0, 0, 0, 0, 0, 0, 0, 0, 0, 0, 0,
    0, 0, 0, 0, 0, 0, 0, 0, 0, 0, 1, 0, 0, 0, 1, 0, 0, 0, 0, 0, 0, 0, 84, 90, 105, 102, 51, 0, 0,
    0, 0, 0, 0, 0, 0, 0, 0, 0, 0, 0, 0, 0, 0, 0, 0, 0, 0, 0, 0, 0, 0, 0, 0, 0, 0, 0, 1, 52, 0, 0,
    0, 5, 0, 0, 0, 21, 255, 255, 255, 255, 125, 189, 74, 176, 255, 255, 255, 255, 200, 89, 207, 0,
    255, 255, 255, 255, 200, 250, 166, 0, 255, 255, 255, 255, 201, 56, 156, 128, 255, 255, 255,
    255, 204, 229, 235, 128, 255, 255, 255, 255, 205, 172, 254, 0, 255, 255, 255, 255, 206, 199,
    31, 0, 255, 255, 255, 255, 207, 143, 131, 0, 255, 255, 255, 255, 208, 169, 164, 0, 255, 255,
    255, 255, 209, 132, 125, 0, 255, 255, 255, 255, 210, 138, 215, 128, 255, 255, 255, 255, 211,
    101, 176, 128, 255, 255, 255, 255, 212, 108, 11, 0, 255, 255, 255, 255, 232, 54, 99, 96, 255,
    255, 255, 255, 232, 244, 45, 80, 255, 255, 255, 255, 234, 11, 185, 96, 255, 255, 255, 255,
    234, 213, 96, 208, 255, 255, 255, 255, 235, 236, 250, 240, 255, 255, 255, 255, 236, 181, 109,
    0, 255, 255, 255, 255, 237, 207, 127, 240, 255, 255, 255, 255, 238, 151, 242, 0, 255, 255,
    255, 255, 239, 176, 179, 112, 255, 255, 255, 255, 240, 121, 37, 128, 255, 255, 255, 255, 241,
    145, 230, 240, 255, 255, 255, 255, 242, 90, 89, 0, 255, 255, 255, 255, 243, 115, 26, 112, 255,
    255, 255, 255, 244, 59, 140, 128, 255, 255, 255, 255, 245, 85, 159, 112, 255, 255, 255, 255,
    246, 30, 17, 128, 255, 255, 255, 255, 247, 54, 210, 240, 255, 255, 255, 255, 247, 255, 69, 0,
    255, 255, 255, 255, 249, 24, 6, 112, 255, 255, 255, 255, 249, 225, 202, 0, 255, 255, 255, 255,
    250, 249, 57, 240, 255, 255, 255, 255, 251, 39, 66, 80, 0, 0, 0, 0, 8, 124, 139, 224, 0, 0, 0,
    0, 8, 253, 176, 208, 0, 0, 0, 0, 9, 246, 234, 96, 0, 0, 0, 0, 10, 166, 51, 208, 0, 0, 0, 0,
    19, 233, 252, 96, 0, 0, 0, 0, 20, 33, 91, 96, 0, 0, 0, 0, 26, 250, 198, 96, 0, 0, 0, 0, 27,
    142, 110, 96, 0, 0, 0, 0, 28, 190, 248, 224, 0, 0, 0, 0, 29, 119, 124, 208, 0, 0, 0, 0, 30,
    204, 255, 96, 0, 0, 0, 0, 31, 96, 153, 80, 0, 0, 0, 0, 32, 130, 177, 96, 0, 0, 0, 0, 33, 73,
    181, 208, 0, 0, 0, 0, 34, 94, 158, 224, 0, 0, 0, 0, 35, 32, 93, 80, 0, 0, 0, 0, 36, 90, 48,
    96, 0, 0, 0, 0, 37, 0, 63, 80, 0, 0, 0, 0, 38, 11, 237, 224, 0, 0, 0, 0, 38, 214, 230, 208, 0,
    0, 0, 0, 39, 235, 207, 224, 0, 0, 0, 0, 40, 192, 3, 80, 0, 0, 0, 0, 41, 212, 236, 96, 0, 0, 0,
    0, 42, 169, 31, 208, 0, 0, 0, 0, 43, 187, 101, 224, 0, 0, 0, 0, 44, 137, 1, 208, 0, 0, 0, 0,
    45, 155, 71, 224, 0, 0, 0, 0, 46, 95, 169, 80, 0, 0, 0, 0, 47, 123, 41, 224, 0, 0, 0, 0, 48,
    72, 197, 208, 0, 0, 0, 0, 48, 231, 7, 224, 0, 0, 0, 0, 49, 100, 70, 96, 0, 0, 0, 0, 50, 65,
    194, 96, 0, 0, 0, 0, 51, 68, 40, 96, 0, 0, 0, 0, 52, 33, 164, 96, 0, 0, 0, 0, 53, 36, 10, 96,
    0, 0, 0, 0, 54, 1, 134, 96, 0, 0, 0, 0, 55, 22, 97, 96, 0, 0, 0, 0, 56, 6, 68, 80, 0, 0, 0, 0,
    56, 255, 125, 224, 0, 0, 0, 0, 57, 239, 96, 208, 0, 0, 0, 0, 58, 223, 95, 224, 0, 0, 0, 0, 59,
    207, 66, 208, 0, 0, 0, 0, 60, 191, 65, 224, 0, 0, 0, 0, 61, 175, 36, 208, 0, 0, 0, 0, 62, 159,
    35, 224, 0, 0, 0, 0, 63, 143, 6, 208, 0, 0, 0, 0, 64, 127, 5, 224, 0, 0, 0, 0, 65, 92, 129,
    224, 0, 0, 0, 0, 66, 94, 231, 224, 0, 0, 0, 0, 67, 65, 183, 240, 0, 0, 0, 0, 68, 45, 166, 96,
    0, 0, 0, 0, 69, 18, 253, 80, 0, 0, 0, 0, 70, 14, 217, 224, 0, 0, 0, 0, 70, 232, 111, 112, 0,
    0, 0, 0, 71, 236, 24, 224, 0, 0, 0, 0, 72, 183, 17, 208, 0, 0, 0, 0, 73, 203, 250, 224, 0, 0,
    0, 0, 74, 160, 60, 96, 0, 0, 0, 0, 75, 173, 46, 156, 0, 0, 0, 0, 76, 97, 189, 208, 0, 0, 0, 0,
    77, 148, 249, 156, 0, 0, 0, 0, 78, 53, 194, 80, 0, 0, 0, 0, 79, 116, 219, 96, 0, 0, 0, 0, 80,
    91, 145, 224, 0, 0, 0, 0, 81, 84, 189, 96, 0, 0, 0, 0, 82, 68, 160, 80, 0, 0, 0, 0, 83, 52,
    159, 96, 0, 0, 0, 0, 84, 73, 108, 80, 0, 0, 0, 0, 85, 21, 210, 224, 0, 0, 0, 0, 86, 41, 92,
    96, 0, 0, 0, 0, 86, 245, 194, 240, 0, 0, 0, 0, 88, 19, 202, 96, 0, 0, 0, 0, 88, 213, 164, 240,
    0, 0, 0, 0, 89, 243, 172, 96, 0, 0, 0, 0, 90, 181, 134, 240, 0, 0, 0, 0, 91, 211, 142, 96, 0,
    0, 0, 0, 92, 157, 67, 224, 0, 0, 0, 0, 93, 179, 98, 80, 0, 0, 0, 0, 94, 126, 119, 96, 0, 0, 0,
    0, 95, 147, 82, 96, 0, 0, 0, 0, 96, 94, 89, 96, 0, 0, 0, 0, 97, 123, 29, 96, 0, 0, 0, 0, 98,
    63, 140, 224, 0, 0, 0, 0, 99, 92, 94, 240, 0, 0, 0, 0, 100, 76, 94, 0, 0, 0, 0, 0, 101, 60,
    64, 240, 0, 0, 0, 0, 102, 35, 5, 128, 0, 0, 0, 0, 103, 28, 34, 240, 0, 0, 0, 0, 103, 249, 173,
    0, 0, 0, 0, 0, 104, 252, 4, 240, 0, 0, 0, 0, 105, 199, 26, 0, 0, 0, 0, 0, 106, 219, 230, 240,
    0, 0, 0, 0, 107, 166, 252, 0, 0, 0, 0, 0, 108, 197, 3, 112, 0, 0, 0, 0, 109, 134, 222, 0, 0,
    0, 0, 0, 110, 164, 229, 112, 0, 0, 0, 0, 111, 102, 192, 0, 0, 0, 0, 0, 112, 132, 199, 112, 0,
    0, 0, 0, 113, 79, 220, 128, 0, 0, 0, 0, 114, 100, 169, 112, 0, 0, 0, 0, 115, 47, 190, 128, 0,
    0, 0, 0, 116, 68, 139, 112, 0, 0, 0, 0, 117, 15, 160, 128, 0, 0, 0, 0, 118, 45, 167, 240, 0,
    0, 0, 0, 118, 239, 130, 128, 0, 0, 0, 0, 120, 13, 137, 240, 0, 0, 0, 0, 120, 207, 100, 128, 0,
    0, 0, 0, 121, 237, 107, 240, 0, 0, 0, 0, 122, 175, 70, 128, 0, 0, 0, 0, 123, 205, 77, 240, 0,
    0, 0, 0, 124, 152, 99, 0, 0, 0, 0, 0, 125, 163, 245, 112, 0, 0, 0, 0, 126, 120, 69, 0, 0, 0,
    0, 0, 127, 122, 156, 240, 0, 0, 0, 0, 128, 88, 39, 0, 0, 0, 0, 0, 129, 72, 9, 240, 0, 0, 0, 0,
    130, 56, 9, 0, 0, 0, 0, 0, 131, 30, 177, 112, 0, 0, 0, 0, 132, 23, 235, 0, 0, 0, 0, 0, 132,
    236, 30, 112, 0, 0, 0, 0, 133, 44, 198, 0, 0, 0, 0, 0, 133, 53, 242, 112, 0, 0, 0, 0, 134, 1,
    7, 128, 0, 0, 0, 0, 134, 194, 197, 240, 0, 0, 0, 0, 134, 250, 51, 0, 0, 0, 0, 0, 135, 21, 212,
    112, 0, 0, 0, 0, 135, 224, 233, 128, 0, 0, 0, 0, 136, 153, 109, 112, 0, 0, 0, 0, 136, 208,
    218, 128, 0, 0, 0, 0, 136, 245, 182, 112, 0, 0, 0, 0, 137, 192, 203, 128, 0, 0, 0, 0, 138,
    102, 218, 112, 0, 0, 0, 0, 138, 167, 130, 0, 0, 0, 0, 0, 138, 213, 152, 112, 0, 0, 0, 0, 139,
    160, 173, 128, 0, 0, 0, 0, 140, 61, 129, 240, 0, 0, 0, 0, 140, 116, 239, 0, 0, 0, 0, 0, 140,
    190, 180, 240, 0, 0, 0, 0, 141, 128, 143, 128, 0, 0, 0, 0, 142, 20, 41, 112, 0, 0, 0, 0, 142,
    75, 150, 128, 0, 0, 0, 0, 142, 158, 150, 240, 0, 0, 0, 0, 143, 96, 113, 128, 0, 0, 0, 0, 143,
    225, 150, 112, 0, 0, 0, 0, 144, 34, 62, 0, 0, 0, 0, 0, 144, 126, 120, 240, 0, 0, 0, 0, 145,
    73, 142, 0, 0, 0, 0, 0, 145, 184, 61, 240, 0, 0, 0, 0, 145, 239, 171, 0, 0, 0, 0, 0, 146, 94,
    90, 240, 0, 0, 0, 0, 147, 41, 112, 0, 0, 0, 0, 0, 147, 133, 170, 240, 0, 0, 0, 0, 147, 198,
    82, 128, 0, 0, 0, 0, 148, 62, 60, 240, 0, 0, 0, 0, 149, 9, 82, 0, 0, 0, 0, 0, 149, 92, 82,
    112, 0, 0, 0, 0, 149, 147, 191, 128, 0, 0, 0, 0, 150, 39, 89, 112, 0, 0, 0, 0, 150, 233, 52,
    0, 0, 0, 0, 0, 151, 50, 249, 240, 0, 0, 0, 0, 151, 106, 103, 0, 0, 0, 0, 0, 152, 7, 59, 112,
    0, 0, 0, 0, 152, 201, 22, 0, 0, 0, 0, 0, 153, 0, 102, 240, 0, 0, 0, 0, 153, 65, 14, 128, 0, 0,
    0, 0, 153, 231, 29, 112, 0, 0, 0, 0, 154, 178, 50, 128, 0, 0, 0, 0, 154, 215, 14, 112, 0, 0,
    0, 0, 155, 14, 123, 128, 0, 0, 0, 0, 155, 198, 255, 112, 0, 0, 0, 0, 156, 146, 20, 128, 0, 0,
    0, 0, 156, 164, 123, 112, 0, 0, 0, 0, 156, 229, 35, 0, 0, 0, 0, 0, 157, 166, 225, 112, 0, 0,
    0, 0, 158, 113, 246, 128, 0, 0, 0, 0, 158, 123, 34, 240, 0, 0, 0, 0, 158, 187, 202, 128, 0, 0,
    0, 0, 159, 134, 195, 112, 0, 0, 0, 0, 160, 137, 55, 128, 0, 0, 0, 0, 161, 111, 223, 240, 0, 0,
    0, 0, 162, 95, 223, 0, 0, 0, 0, 0, 163, 79, 193, 240, 0, 0, 0, 0, 164, 45, 76, 0, 0, 0, 0, 0,
    165, 47, 163, 240, 0, 0, 0, 0, 166, 3, 243, 128, 0, 0, 0, 0, 167, 15, 133, 240, 0, 0, 0, 0,
    167, 218, 155, 0, 0, 0, 0, 0, 168, 239, 103, 240, 0, 0, 0, 0, 169, 186, 125, 0, 0, 0, 0, 0,
    170, 216, 132, 112, 0, 0, 0, 0, 171, 154, 95, 0, 0, 0, 0, 0, 172, 184, 102, 112, 0, 0, 0, 0,
    173, 122, 65, 0, 0, 0, 0, 0, 174, 152, 72, 112, 0, 0, 0, 0, 175, 90, 35, 0, 0, 0, 0, 0, 176,
    120, 42, 112, 0, 0, 0, 0, 177, 67, 63, 128, 0, 0, 0, 0, 178, 88, 12, 112, 0, 0, 0, 0, 179, 35,
    33, 128, 0, 0, 0, 0, 180, 55, 238, 112, 0, 0, 0, 0, 181, 3, 3, 128, 0, 0, 0, 0, 182, 33, 10,
    240, 0, 0, 0, 0, 182, 226, 229, 128, 0, 0, 0, 0, 184, 0, 236, 240, 0, 0, 0, 0, 184, 194, 199,
    128, 0, 0, 0, 0, 185, 215, 148, 112, 0, 0, 0, 0, 186, 171, 228, 0, 0, 0, 0, 0, 187, 174, 59,
    240, 0, 0, 0, 0, 188, 139, 198, 0, 0, 0, 0, 0, 189, 132, 227, 112, 0, 0, 0, 0, 190, 107, 168,
    0, 0, 0, 0, 0, 191, 82, 80, 112, 0, 0, 0, 0, 192, 75, 138, 0, 0, 0, 0, 0, 193, 40, 247, 240,
    0, 0, 0, 0, 193, 96, 101, 0, 0, 0, 0, 0, 193, 105, 145, 112, 0, 0, 0, 0, 194, 43, 108, 0, 0,
    0, 0, 0, 194, 255, 159, 112, 0, 0, 0, 0, 195, 55, 12, 128, 0, 0, 0, 0, 195, 73, 115, 112, 0,
    0, 0, 0, 196, 11, 78, 0, 0, 0, 0, 0, 196, 205, 12, 112, 0, 0, 0, 0, 197, 13, 180, 0, 0, 0, 0,
    0, 197, 41, 85, 112, 0, 0, 0, 0, 197, 244, 106, 128, 0, 0, 0, 0, 198, 163, 179, 240, 0, 0, 0,
    0, 198, 219, 33, 0, 0, 0, 0, 0, 199, 9, 55, 112, 0, 0, 0, 0, 199, 212, 76, 128, 0, 0, 0, 0,
    200, 113, 32, 240, 0, 0, 0, 0, 200, 177, 200, 128, 0, 0, 0, 0, 200, 233, 25, 112, 0, 0, 0, 0,
    201, 180, 46, 128, 0, 0, 0, 0, 202, 71, 200, 112, 0, 0, 0, 0, 202, 136, 112, 0, 0, 0, 0, 0,
    202, 210, 53, 240, 0, 0, 0, 0, 203, 148, 16, 128, 0, 0, 0, 0, 204, 30, 111, 240, 0, 0, 0, 0,
    204, 85, 221, 0, 0, 0, 0, 0, 204, 178, 23, 240, 0, 0, 0, 0, 205, 115, 242, 128, 0, 0, 0, 0,
    205, 235, 220, 240, 0, 0, 0, 0, 206, 44, 132, 128, 0, 0, 0, 0, 206, 145, 249, 240, 0, 0, 0, 0,
    207, 93, 15, 0, 0, 0, 0, 0, 207, 194, 132, 112, 0, 0, 0, 0, 207, 249, 241, 128, 0, 0, 0, 0,
    208, 113, 219, 240, 0, 0, 0, 0, 209, 60, 241, 0, 0, 0, 0, 0, 209, 153, 43, 240, 0, 0, 0, 0,
    209, 208, 153, 0, 0, 0, 0, 0, 210, 81, 189, 240, 0, 0, 0, 0, 211, 28, 211, 0, 0, 0, 0, 0, 211,
    102, 152, 240, 0, 0, 0, 0, 211, 167, 64, 128, 0, 0, 0, 0, 212, 49, 159, 240, 0, 0, 0, 0, 212,
    252, 181, 0, 0, 0, 0, 0, 213, 61, 64, 112, 0, 0, 0, 0, 213, 116, 173, 128, 0, 0, 0, 0, 214,
    26, 188, 112, 0, 0, 0, 0, 214, 220, 151, 0, 0, 0, 0, 0, 215, 10, 173, 112, 0, 0, 0, 0, 215,
    75, 85, 0, 0, 0, 0, 0, 215, 250, 158, 112, 0, 0, 0, 0, 216, 188, 121, 0, 0, 0, 0, 0, 216, 225,
    84, 240, 0, 0, 0, 0, 217, 33, 252, 128, 0, 0, 0, 0, 217, 218, 128, 112, 0, 0, 0, 0, 218, 165,
    149, 128, 0, 0, 0, 0, 218, 183, 252, 112, 0, 0, 0, 0, 218, 239, 105, 128, 0, 0, 0, 0, 219,
    186, 98, 112, 2, 1, 2, 1, 2, 1, 2, 1, 2, 1, 2, 1, 2, 1, 2, 1, 2, 1, 2, 1, 2, 1, 2, 1, 2, 1, 2,
    1, 2, 1, 2, 1, 2, 1, 4, 3, 4, 3, 4, 3, 4, 3, 4, 3, 4, 3, 4, 3, 4, 3, 4, 3, 4, 3, 4, 3, 4, 3,
    4, 3, 4, 3, 4, 3, 4, 2, 1, 2, 1, 2, 1, 2, 1, 2, 1, 2, 1, 2, 1, 2, 1, 2, 1, 2, 1, 2, 1, 2, 1,
    2, 1, 2, 1, 2, 1, 2, 1, 2, 1, 2, 1, 2, 1, 2, 1, 2, 1, 2, 1, 2, 1, 2, 1, 2, 1, 2, 1, 2, 1, 2,
    1, 2, 1, 2, 1, 2, 1, 2, 1, 2, 1, 2, 1, 2, 1, 2, 1, 2, 1, 2, 1, 2, 1, 2, 1, 2, 1, 2, 1, 2, 1,
    2, 1, 2, 1, 2, 1, 2, 1, 2, 1, 2, 1, 2, 1, 2, 1, 2, 1, 2, 1, 2, 1, 2, 1, 2, 1, 2, 1, 2, 1, 2,
    1, 2, 1, 2, 1, 2, 1, 2, 1, 2, 1, 2, 1, 2, 1, 2, 1, 2, 1, 2, 1, 2, 1, 2, 1, 2, 1, 2, 1, 2, 1,
    2, 1, 2, 1, 2, 1, 2, 1, 2, 1, 2, 1, 2, 1, 2, 1, 2, 1, 2, 1, 2, 1, 2, 1, 2, 1, 2, 1, 2, 1, 2,
    1, 2, 1, 2, 1, 2, 1, 2, 1, 2, 1, 2, 1, 2, 1, 2, 1, 2, 1, 2, 1, 2, 1, 2, 1, 2, 1, 2, 1, 2, 1,
    2, 1, 2, 1, 2, 1, 2, 1, 2, 1, 2, 1, 2, 1, 2, 1, 2, 1, 2, 1, 2, 1, 2, 1, 2, 1, 2, 1, 2, 1, 2,
    1, 2, 0, 0, 32, 80, 0, 0, 0, 0, 42, 48, 1, 4, 0, 0, 28, 32, 0, 9, 0, 0, 42, 48, 1, 13, 0, 0,
    28, 32, 0, 17, 76, 77, 84, 0, 69, 69, 83, 84, 0, 69, 69, 84, 0, 73, 68, 84, 0, 73, 83, 84, 0,
    10, 69, 69, 84, 45, 50, 69, 69, 83, 84, 44, 77, 51, 46, 52, 46, 52, 47, 53, 48, 44, 77, 49,
    48, 46, 52, 46, 52, 47, 53, 48, 10,
];

/// `Asia/Hebron`.
#[verifier::opaque]
pub const ASIA_HEBRON: [u8; 2968] = [
    84, 90, 105, 102, 51, 0, 0, 0, 0, 0, 0, 0, 0, 0, 0, 0, 0, 0, 0, 0, 0, 0, 0, 0, 0, 0, 0, 0, 0,
    0, 0, 0, 0, 0, 0, 0, 0, 0, 0, 1, 0, 0, 0, 1, 0, 0, 0, 0, 0, 0, 0, 84, 90, 105, 102, 51, 0, 0,
    0, 0, 0, 0, 0, 0, 0, 0, 0, 0, 0, 0, 0, 0, 0, 0, 0, 0, 0, 0, 0, 0, 0, 0, 0, 0, 0, 1, 54, 0, 0,
    0, 5, 0, 0, 0, 21, 255, 255, 255, 255, 125, 189, 74, 25, 255, 255, 255, 255, 200, 89, 207, 0,
    255, 255, 255, 255, 200, 250, 166, 0, 255, 255, 255, 255, 201, 56, 156, 128, 255, 255, 255,
    255, 204, 229, 235, 128, 255, 255, 255, 255, 205, 172, 254, 0, 255, 255, 255, 255, 206, 199,
    31, 0, 255, 255, 255, 255, 207, 143, 131, 0, 255, 255, 255, 255, 208, 169, 164, 0, 255, 255,
    255, 255, 209, 132, 125, 0, 255, 255, 255, 255, 210, 138, 215, 128, 255, 255, 255, 255, 211,
    101, 176, 128, 255, 255, 255, 255, 212, 108, 11, 0, 255, 255, 255, 255, 232, 54, 99, 96, 255,
    255, 255, 255, 232, 244, 45, 80, 255, 255, 255, 255, 234, 11, 185, 96, 255, 255, 255, 255,
    234, 213, 96, 208, 255, 255, 255, 255, 235, 236, 250, 240, 255, 255, 255, 255, 236, 181, 109,
    0, 255, 255, 255, 255, 237, 207, 127, 240, 255, 255, 255, 255, 238, 151, 242, 0, 255, 255,
    255, 255, 239, 176, 179, 112, 255, 255, 255, 255, 240, 121, 37, 128, 255, 255, 255, 255, 241,
    145, 230, 240, 255, 255, 255, 255, 242, 90, 89, 0, 255, 255, 255, 255, 243, 115, 26, 112, 255,
    255, 255, 255, 244, 59, 140, 128, 255, 255, 255, 255, 245, 85, 159, 112, 255, 255, 255, 255,
    246, 30, 17, 128, 255, 255, 255, 255, 247, 54, 210, 240, 255, 255, 255, 255, 247, 255, 69, 0,
    255, 255, 255, 255, 249, 24, 6, 112, 255, 255, 255, 255, 249, 225, 202, 0, 255, 255, 255, 255,
    250, 249, 57, 240, 255, 255, 255, 255, 251, 39, 66, 80, 0, 0, 0, 0, 8, 124, 139, 224, 0, 0, 0,
    0, 8, 253, 176, 208, 0, 0, 0, 0, 9, 246, 234, 96, 0, 0, 0, 0, 10, 166, 51, 208, 0, 0, 0, 0,
    19, 233, 252, 96, 0, 0, 0, 0, 20, 33, 91, 96, 0, 0, 0, 0, 26, 250, 198, 96, 0, 0, 0, 0, 27,
    142, 110, 96, 0, 0, 0, 0, 28, 190, 248, 224, 0, 0, 0, 0, 29, 119, 124, 208, 0, 0, 0, 0, 30,
    204, 255, 96, 0, 0, 0, 0, 31, 96, 153, 80, 0, 0, 0, 0, 32, 130, 177, 96, 0, 0, 0, 0, 33, 73,
    181, 208, 0, 0, 0, 0, 34, 94, 158, 224, 0, 0, 0, 0, 35, 32, 93, 80, 0, 0, 0, 0, 36, 90, 48,
    96, 0, 0, 0, 0, 37, 0, 63, 80, 0, 0, 0, 0, 38, 11, 237, 224, 0, 0, 0, 0, 38, 214, 230, 208, 0,
    0, 0, 0, 39, 235, 207, 224, 0, 0, 0, 0, 40, 192, 3, 80, 0, 0, 0, 0, 41, 212, 236, 96, 0, 0, 0,
    0, 42, 169, 31, 208, 0, 0, 0, 0, 43, 187, 101, 224, 0, 0, 0, 0, 44, 137, 1, 208, 0, 0, 0, 0,
    45, 155, 71, 224, 0, 0, 0, 0, 46, 95, 169, 80, 0, 0, 0, 0, 47, 123, 41, 224, 0, 0, 0, 0, 48,
    72, 197, 208, 0, 0, 0, 0, 48, 231, 7, 224, 0, 0, 0, 0, 49, 100, 70, 96, 0, 0, 0, 0, 50, 65,
    194, 96, 0, 0, 0, 0, 51, 68, 40, 96, 0, 0, 0, 0, 52, 33, 164, 96, 0, 0, 0, 0, 53, 36, 10, 96,
    0, 0, 0, 0, 54, 1, 134, 96, 0, 0, 0, 0, 55, 22, 97, 96, 0, 0, 0, 0, 56, 6, 68, 80, 0, 0, 0, 0,
    56, 255, 125, 224, 0, 0, 0, 0, 57, 239, 96, 208, 0, 0, 0, 0, 58, 223, 95, 224, 0, 0, 0, 0, 59,
    207, 66, 208, 0, 0, 0, 0, 60, 191, 65, 224, 0, 0, 0, 0, 61, 175, 36, 208, 0, 0, 0, 0, 62, 159,
    35, 224, 0, 0, 0, 0, 63, 143, 6, 208, 0, 0, 0, 0, 64, 127, 5, 224, 0, 0, 0, 0, 65, 92, 129,
    224, 0, 0, 0, 0, 66, 94, 231, 224, 0, 0, 0, 0, 67, 65, 183, 240, 0, 0, 0, 0, 68, 45, 166, 96,
    0, 0, 0, 0, 69, 18, 253, 80, 0, 0, 0, 0, 70, 14, 217, 224, 0, 0, 0, 0, 70, 232, 111, 112, 0,
    0, 0, 0, 71, 236, 24, 224, 0, 0, 0, 0, 72, 187, 6, 80, 0, 0, 0, 0, 73, 203, 250, 224, 0, 0, 0,
    0, 74, 160, 60, 96, 0, 0, 0, 0, 75, 171, 220, 224, 0, 0, 0, 0, 76, 97, 189, 208, 0, 0, 0, 0,
    77, 148, 249, 156, 0, 0, 0, 0, 78, 53, 194, 80, 0, 0, 0, 0, 78, 92, 11, 224, 0, 0, 0, 0, 78,
    132, 220, 80, 0, 0, 0, 0, 79, 116, 219, 96, 0, 0, 0, 0, 80, 91, 145, 224, 0, 0, 0, 0, 81, 84,
    189, 96, 0, 0, 0, 0, 82, 68, 160, 80, 0, 0, 0, 0, 83, 52, 159, 96, 0, 0, 0, 0, 84, 73, 108,
    80, 0, 0, 0, 0, 85, 21, 210, 224, 0, 0, 0, 0, 86, 41, 92, 96, 0, 0, 0, 0, 86, 245, 194, 240,
    0, 0, 0, 0, 88, 19, 202, 96, 0, 0, 0, 0, 88, 213, 164, 240, 0, 0, 0, 0, 89, 243, 172, 96, 0,
    0, 0, 0, 90, 181, 134, 240, 0, 0, 0, 0, 91, 211, 142, 96, 0, 0, 0, 0, 92, 157, 67, 224, 0, 0,
    0, 0, 93, 179, 98, 80, 0, 0, 0, 0, 94, 126, 119, 96, 0, 0, 0, 0, 95, 147, 82, 96, 0, 0, 0, 0,
    96, 94, 89, 96, 0, 0, 0, 0, 97, 123, 29, 96, 0, 0, 0, 0, 98, 63, 140, 224, 0, 0, 0, 0, 99, 92,
    94, 240, 0, 0, 0, 0, 100, 76, 94, 0, 0, 0, 0, 0, 101, 60, 64, 240, 0, 0, 0, 0, 102, 35, 5,
    128, 0, 0, 0, 0, 103, 28, 34, 240, 0, 0, 0, 0, 103, 249, 173, 0, 0, 0, 0, 0, 104, 252, 4, 240,
    0, 0, 0, 0, 105, 199, 26, 0, 0, 0, 0, 0, 106, 219, 230, 240, 0, 0, 0, 0, 107, 166, 252, 0, 0,
    0, 0, 0, 108, 197, 3, 112, 0, 0, 0, 0, 109, 134, 222, 0, 0, 0, 0, 0, 110, 164, 229, 112, 0, 0,
    0, 0, 111, 102, 192, 0, 0, 0, 0, 0, 112, 132, 199, 112, 0, 0, 0, 0, 113, 79, 220, 128, 0, 0,
    0, 0, 114, 100, 169, 112, 0, 0, 0, 0, 115, 47, 190, 128, 0, 0, 0, 0, 116, 68, 139, 112, 0, 0,
    0, 0, 117, 15, 160, 128, 0, 0, 0, 0, 118, 45, 167, 240, 0, 0, 0, 0, 118, 239, 130, 128, 0, 0,
    0, 0, 120, 13, 137, 240, 0, 0, 0, 0, 120, 207, 100, 128, 0, 0, 0, 0, 121, 237, 107, 240, 0, 0,
    0, 0, 122, 175, 70, 128, 0, 0, 0, 0, 123, 205, 77, 240, 0, 0, 0, 0, 124, 152, 99, 0, 0, 0, 0,
    0, 125, 163, 245, 112, 0, 0, 0, 0, 126, 120, 69, 0, 0, 0, 0, 0, 127, 122, 156, 240, 0, 0, 0,
    0, 128, 88, 39, 0, 0, 0, 0, 0, 129, 72, 9, 240, 0, 0, 0, 0, 130, 56, 9, 0, 0, 0, 0, 0, 131,
    30, 177, 112, 0, 0, 0, 0, 132, 23, 235, 0, 0, 0, 0, 0, 132, 236, 30, 112, 0, 0, 0, 0, 133, 44,
    198, 0, 0, 0, 0, 0, 133, 53, 242, 112, 0, 0, 0, 0, 134, 1, 7, 128, 0, 0, 0, 0, 134, 194, 197,
    240, 0, 0, 0, 0, 134, 250, 51, 0, 0, 0, 0, 0, 135, 21, 212, 112, 0, 0, 0, 0, 135, 224, 233,
    128, 0, 0, 0, 0, 136, 153, 109, 112, 0, 0, 0, 0, 136, 208, 218, 128, 0, 0, 0, 0, 136, 245,
    182, 112, 0, 0, 0, 0, 137, 192, 203, 128, 0, 0, 0, 0, 138, 102, 218, 112, 0, 0, 0, 0, 138,
    167, 130, 0, 0, 0, 0, 0, 138, 213, 152, 112, 0, 0, 0, 0, 139, 160, 173, 128, 0, 0, 0, 0, 140,
    61, 129, 240, 0, 0, 0, 0, 140, 116, 239, 0, 0, 0, 0, 0, 140, 190, 180, 240, 0, 0, 0, 0, 141,
    128, 143, 128, 0, 0, 0, 0, 142, 20, 41, 112, 0, 0, 0, 0, 142, 75, 150, 128, 0, 0, 0, 0, 142,
    158, 150, 240, 0, 0, 0, 0, 143, 96, 113, 128, 0, 0, 0, 0, 143, 225, 150, 112, 0, 0, 0, 0, 144,
    34, 62, 0, 0, 0, 0, 0, 144, 126, 120, 240, 0, 0, 0, 0, 145, 73, 142, 0, 0, 0, 0, 0, 145, 184,
    61, 240, 0, 0, 0, 0, 145, 239, 171, 0, 0, 0, 0, 0, 146, 94, 90, 240, 0, 0, 0, 0, 147, 41, 112,
    0, 0, 0, 0, 0, 147, 133, 170, 240, 0, 0, 0, 0, 147, 198, 82, 128, 0, 0, 0, 0, 148, 62, 60,
    240, 0, 0, 0, 0, 149, 9, 82, 0, 0, 0, 0, 0, 149, 92, 82, 112, 0, 0, 0, 0, 149, 147, 191, 128,
    0, 0, 0, 0, 150, 39, 89, 112, 0, 0, 0, 0, 150, 233, 52, 0, 0, 0, 0, 0, 151, 50, 249, 240, 0,
    0, 0, 0, 151, 106, 103, 0, 0, 0, 0, 0, 152, 7, 59, 112, 0, 0, 0, 0, 152, 201, 22, 0, 0, 0, 0,
    0, 153, 0, 102, 240, 0, 0, 0, 0, 153, 65, 14, 128, 0, 0, 0, 0, 153, 231, 29, 112, 0, 0, 0, 0,
    154, 178, 50, 128, 0, 0, 0, 0, 154, 215, 14, 112, 0, 0, 0, 0, 155, 14, 123, 128, 0, 0, 0, 0,
    155, 198, 255, 112, 0, 0, 0, 0, 156, 146, 20, 128, 0, 0, 0, 0, 156, 164, 123, 112, 0, 0, 0, 0,
    156, 229, 35, 0, 0, 0, 0, 0, 157, 166, 225, 112, 0, 0, 0, 0, 158, 113, 246, 128, 0, 0, 0, 0,
    158, 123, 34, 240, 0, 0, 0, 0, 158, 187, 202, 128, 0, 0, 0, 0, 159, 134, 195, 112, 0, 0, 0, 0,
    160, 137, 55, 128, 0, 0, 0, 0, 161, 111, 223, 240, 0, 0, 0, 0, 162, 95, 223, 0, 0, 0, 0, 0,
    163, 79, 193, 240, 0, 0, 0, 0, 164, 45, 76, 0, 0, 0, 0, 0, 165, 47, 163, 240, 0, 0, 0, 0, 166,
    3, 243, 128, 0, 0, 0, 0, 167, 15, 133, 240, 0, 0, 0, 0, 167, 218, 155, 0, 0, 0, 0, 0, 168,
    239, 103, 240, 0, 0, 0, 0, 169, 186, 125, 0, 0, 0, 0, 0, 170, 216, 132, 112, 0, 0, 0, 0, 171,
    154, 95, 0, 0, 0, 0, 0, 172, 184, 102, 112, 0, 0, 0, 0, 173, 122, 65, 0, 0, 0, 0, 0, 174, 152,
    72, 112, 0, 0, 0, 0, 175, 90, 35, 0, 0, 0, 0, 0, 176, 120, 42, 112, 0, 0, 0, 0, 177, 67, 63,
    128, 0, 0, 0, 0, 178, 88, 12, 112, 0, 0, 0, 0, 179, 35, 33, 128, 0, 0, 0, 0, 180, 55, 238,
    112, 0, 0, 0, 0, 181, 3, 3, 128, 0, 0, 0, 0, 182, 33, 10, 240, 0, 0, 0, 0, 182, 226, 229, 128,
    0, 0, 0, 0, 184, 0, 236, 240, 0, 0, 0, 0, 184, 194, 199, 128, 0, 0, 0, 0, 185, 215, 148, 112,
    0, 0, 0, 0, 186, 171, 228, 0, 0, 0, 0, 0, 187, 174, 59, 240, 0, 0, 0, 0, 188, 139, 198, 0, 0,
    0, 0, 0, 189, 132, 227, 112, 0, 0, 0, 0, 190, 107, 168, 0, 0, 0, 0, 0, 191, 82, 80, 112, 0, 0,
    0, 0, 192, 75, 138, 0, 0, 0, 0, 0, 193, 40, 247, 240, 0, 0, 0, 0, 193, 96, 101, 0, 0, 0, 0, 0,
    193, 105, 145, 112, 0, 0, 0, 0, 194, 43, 108, 0, 0, 0, 0, 0, 194, 255, 159, 112, 0, 0, 0, 0,
    195, 55, 12, 128, 0, 0, 0, 0, 195, 73, 115, 112, 0, 0, 0, 0, 196, 11, 78, 0, 0, 0, 0, 0, 196,
    205, 12, 112, 0, 0, 0, 0, 197, 13, 180, 0, 0, 0, 0, 0, 197, 41, 85, 112, 0, 0, 0, 0, 197, 244,
    106, 128, 0, 0, 0, 0, 198, 163, 179, 240, 0, 0, 0, 0, 198, 219, 33, 0, 0, 0, 0, 0, 199, 9, 55,
    112, 0, 0, 0, 0, 199, 212, 76, 128, 0, 0, 0, 0, 200, 113, 32, 240, 0, 0, 0, 0, 200, 177, 200,
    128, 0, 0, 0, 0, 200, 233, 25, 112, 0, 0, 0, 0, 201, 180, 46, 128, 0, 0, 0, 0, 202, 71, 200,
    112, 0, 0, 0, 0, 202, 136, 112, 0, 0, 0, 0, 0, 202, 210, 53, 240, 0, 0, 0, 0, 203, 148, 16,
    128, 0, 0, 0, 0, 204, 30, 111, 240, 0, 0, 0, 0, 204, 85, 221, 0, 0, 0, 0, 0, 204, 178, 23,
    240, 0, 0, 0, 0, 205, 115, 242, 128, 0, 0, 0, 0, 205, 235, 220, 240, 0, 0, 0, 0, 206, 44, 132,
    128, 0, 0, 0, 0, 206, 145, 249, 240, 0, 0, 0, 0, 207, 93, 15, 0, 0, 0, 0, 0, 207, 194, 132,
    112, 0, 0, 0, 0, 207, 249, 241, 128, 0, 0, 0, 0, 208, 113, 219, 240, 0, 0, 0, 0, 209, 60, 241,
    0, 0, 0, 0, 0, 209, 153, 43, 240, 0, 0, 0, 0, 209, 208, 153, 0, 0, 0, 0, 0, 210, 81, 189, 240,
    0, 0, 0, 0, 211, 28, 211, 0, 0, 0, 0, 0, 211, 102, 152, 240, 0, 0, 0, 0, 211, 167, 64, 128, 0,
    0, 0, 0, 212, 49, 159, 240, 0, 0, 0, 0, 212, 252, 181, 0, 0, 0, 0, 0, 213, 61, 64, 112, 0, 0,
    0, 0, 213, 116, 173, 128, 0, 0, 0, 0, 214, 26, 188, 112, 0, 0, 0, 0, 214, 220, 151, 0, 0, 0,
    0, 0, 215, 10, 173, 112, 0, 0, 0, 0, 215, 75, 85, 0, 0, 0, 0, 0, 215, 250, 158, 112, 0, 0, 0,
    0, 216, 188, 121, 0, 0, 0, 0, 0, 216, 225, 84, 240, 0, 0, 0, 0, 217, 33, 252, 128, 0, 0, 0, 0,
    217, 218, 128, 112, 0, 0, 0, 0, 218, 165, 149, 128, 0, 0, 0, 0, 218, 183, 252, 112, 0, 0, 0,
    0, 218, 239, 105, 128, 0, 0, 0, 0, 219, 186, 98, 112, 2, 1, 2, 1, 2, 1, 2, 1, 2, 1, 2, 1, 2,
    1, 2, 1, 2, 1, 2, 1, 2, 1, 2, 1, 2, 1, 2, 1, 2, 1, 2, 1, 2, 1, 4, 3, 4, 3, 4, 3, 4, 3, 4, 3,
    4, 3, 4, 3, 4, 3, 4, 3, 4, 3, 4, 3, 4, 3, 4, 3, 4, 3, 4, 3, 4, 2, 1, 2, 1, 2, 1, 2, 1, 2, 1,
    2, 1, 2, 1, 2, 1, 2, 1, 2, 1, 2, 1, 2, 1, 2, 1, 2, 1, 2, 1, 2, 1, 2, 1, 2, 1, 2, 1, 2, 1, 2,
    1, 2, 1, 2, 1, 2, 1, 2, 1, 2, 1, 2, 1, 2, 1, 2, 1, 2, 1, 2, 1, 2, 1, 2, 1, 2, 1, 2, 1, 2, 1,
    2, 1, 2, 1, 2, 1, 2, 1, 2, 1, 2, 1, 2, 1, 2, 1, 2, 1, 2, 1, 2, 1, 2, 1, 2, 1, 2, 1, 2, 1, 2,
    1, 2, 1, 2, 1, 2, 1, 2, 1, 2, 1, 2, 1, 2, 1, 2, 1, 2, 1, 2, 1, 2, 1, 2, 1, 2, 1, 2, 1, 2, 1,
    2, 1, 2, 1, 2, 1, 2, 1, 2, 1, 2, 1, 2, 1, 2, 1, 2, 1, 2, 1, 2, 1, 2, 1, 2, 1, 2, 1, 2, 1, 2,
    1, 2, 1, 2, 1, 2, 1, 2, 1, 2, 1, 2, 1, 2, 1, 2, 1, 2, 1, 2, 1, 2, 1, 2, 1, 2, 1, 2, 1, 2, 1,
    2, 1, 2, 1, 2, 1, 2, 1, 2, 1, 2, 1, 2, 1, 2, 1, 2, 1, 2, 1, 2, 1, 2, 1, 2, 1, 2, 1, 2, 1, 2,
    1, 2, 1, 2, 1, 2, 1, 2, 1, 2, 1, 2, 1, 2, 1, 2, 1, 2, 0, 0, 32, 231, 0, 0, 0, 0, 42, 48, 1, 4,
    0, 0, 28, 32, 0, 9, 0, 0, 42, 48, 1, 13, 0, 0, 28, 32, 0, 17, 76, 77, 84, 0, 69, 69, 83, 84,
    0, 69, 69, 84, 0, 73, 68, 84, 0, 73, 83, 84, 0, 10, 69, 69, 84, 45, 50, 69, 69, 83, 84, 44,
    77, 51, 46, 52, 46, 52, 47, 53, 48, 44, 77, 49, 48, 46, 52, 46, 52, 47, 53, 48, 10,
];

/// `Asia/Ho_Chi_Minh`.
#[verifier::opaque]
pub const ASIA_HO_CHI_MINH: [u8; 236] = [
    84, 90, 105, 102, 50, 0, 0, 0, 0, 0, 0, 0, 0, 0, 0, 0, 0, 0, 0, 0, 0, 0, 0, 0, 0, 0, 0, 0, 0,
    0, 0, 0, 0, 0, 0, 0, 0, 0, 0, 1, 0, 0, 0, 1, 0, 0, 0, 0, 0, 0, 0, 84, 90, 105, 102, 50, 0, 0,
    0, 0, 0, 0, 0, 0, 0, 0, 0, 0, 0, 0, 0, 0, 0, 0, 0, 0, 0, 0, 0, 0, 0, 0, 0, 0, 0, 0, 9, 0, 0,
    0, 5, 0, 0, 0, 21, 255, 255, 255, 255, 136, 140, 67, 138, 255, 255, 255, 255, 145, 163, 43,
    10, 255, 255, 255, 255, 205, 53, 230, 128, 255, 255, 255, 255, 209, 89, 206, 112, 255, 255,
    255, 255, 210, 59, 62, 240, 255, 255, 255, 255, 213, 50, 187, 16, 255, 255, 255, 255, 228,
    182, 242, 144, 255, 255, 255, 255, 237, 47, 152, 0, 0, 0, 0, 0, 10, 61, 199, 0, 1, 2, 3, 4, 2,
    3, 2, 3, 2, 0, 0, 99, 246, 0, 0, 0, 0, 99, 246, 0, 4, 0, 0, 98, 112, 0, 9, 0, 0, 112, 128, 0,
    13, 0, 0, 126, 144, 0, 17, 76, 77, 84, 0, 80, 76, 77, 84, 0, 43, 48, 55, 0, 43, 48, 56, 0, 43,
    48, 57, 0, 10, 60, 43, 48, 55, 62, 45, 55, 10,
];

/// `Asia/Hong_Kong`.
#[verifier::opaque]
pub const ASIA_HONG_KONG: [u8; 775] = [
    84, 90, 105, 102, 50, 0, 0, 0, 0, 0, 0, 0, 0, 0, 0, 0, 0, 0, 0, 0, 0, 0, 0, 0, 0, 0, 0, 0, 0,
    0, 0, 0, 0, 0, 0, 0, 0, 0, 0, 1, 0, 0, 0, 1, 0, 0, 0, 0, 0, 0, 0, 84, 90, 105, 102, 50, 0, 0,
    0, 0, 0, 0, 0, 0, 0, 0, 0, 0, 0, 0, 0, 0, 0, 0, 0, 0, 0, 0, 0, 0, 0, 0, 0, 0, 0, 0, 69, 0, 0,
    0, 5, 0, 0, 0, 22, 255, 255, 255, 255, 133, 105, 99, 144, 255, 255, 255, 255, 202, 77, 49, 48,
    255, 255, 255, 255, 202, 219, 147, 48, 255, 255, 255, 255, 203, 75, 113, 120, 255, 255, 255,
    255, 210, 160, 222, 144, 255, 255, 255, 255, 211, 107, 215, 128, 255, 255, 255, 255, 212, 147,
    88, 184, 255, 255, 255, 255, 213, 66, 176, 56, 255, 255, 255, 255, 214, 115, 58, 184, 255,
    255, 255, 255, 215, 62, 65, 184, 255, 255, 255, 255, 216, 46, 50, 184, 255, 255, 255, 255,
    216, 249, 57, 184, 255, 255, 255, 255, 218, 14, 20, 184, 255, 255, 255, 255, 218, 217, 27,
    184, 255, 255, 255, 255, 219, 237, 246, 184, 255, 255, 255, 255, 220, 184, 253, 184, 255, 255,
    255, 255, 221, 205, 216, 184, 255, 255, 255, 255, 222, 162, 26, 56, 255, 255, 255, 255, 223,
    182, 245, 56, 255, 255, 255, 255, 224, 129, 252, 56, 255, 255, 255, 255, 225, 150, 201, 40,
    255, 255, 255, 255, 226, 79, 105, 56, 255, 255, 255, 255, 227, 118, 171, 40, 255, 255, 255,
    255, 228, 47, 75, 56, 255, 255, 255, 255, 229, 95, 199, 168, 255, 255, 255, 255, 230, 15, 45,
    56, 255, 255, 255, 255, 231, 63, 169, 168, 255, 255, 255, 255, 231, 248, 73, 184, 255, 255,
    255, 255, 233, 31, 139, 168, 255, 255, 255, 255, 233, 216, 43, 184, 255, 255, 255, 255, 234,
    255, 109, 168, 255, 255, 255, 255, 235, 184, 13, 184, 255, 255, 255, 255, 236, 223, 79, 168,
    255, 255, 255, 255, 237, 151, 239, 184, 255, 255, 255, 255, 238, 200, 108, 40, 255, 255, 255,
    255, 239, 119, 209, 184, 255, 255, 255, 255, 240, 168, 78, 40, 255, 255, 255, 255, 241, 87,
    179, 184, 255, 255, 255, 255, 242, 136, 48, 40, 255, 255, 255, 255, 243, 64, 208, 56, 255,
    255, 255, 255, 244, 104, 18, 40, 255, 255, 255, 255, 245, 32, 178, 56, 255, 255, 255, 255,
    246, 71, 244, 40, 255, 255, 255, 255, 247, 37, 126, 56, 255, 255, 255, 255, 248, 21, 97, 40,
    255, 255, 255, 255, 249, 5, 96, 56, 255, 255, 255, 255, 249, 245, 67, 40, 255, 255, 255, 255,
    250, 229, 66, 56, 255, 255, 255, 255, 251, 222, 95, 168, 255, 255, 255, 255, 252, 206, 94,
    184, 255, 255, 255, 255, 253, 190, 65, 168, 255, 255, 255, 255, 254, 174, 64, 184, 255, 255,
    255, 255, 255, 158, 35, 168, 0, 0, 0, 0, 0, 142, 34, 184, 0, 0, 0, 0, 1, 126, 5, 168, 0, 0, 0,
    0, 2, 110, 4, 184, 0, 0, 0, 0, 3, 93, 231, 168, 0, 0, 0, 0, 4, 77, 230, 184, 0, 0, 0, 0, 5,
    71, 4, 40, 0, 0, 0, 0, 6, 55, 3, 56, 0, 0, 0, 0, 7, 38, 230, 40, 0, 0, 0, 0, 7, 131, 61, 56,
    0, 0, 0, 0, 9, 6, 200, 40, 0, 0, 0, 0, 9, 246, 199, 56, 0, 0, 0, 0, 10, 230, 170, 40, 0, 0, 0,
    0, 11, 214, 169, 56, 0, 0, 0, 0, 12, 198, 140, 40, 0, 0, 0, 0, 17, 155, 57, 56, 0, 0, 0, 0,
    18, 111, 108, 168, 1, 2, 3, 4, 1, 2, 1, 2, 1, 2, 1, 2, 1, 2, 1, 2, 1, 2, 1, 2, 1, 2, 1, 2, 1,
    2, 1, 2, 1, 2, 1, 2, 1, 2, 1, 2, 1, 2, 1, 2, 1, 2, 1, 2, 1, 2, 1, 2, 1, 2, 1, 2, 1, 2, 1, 2,
    1, 2, 1, 2, 1, 2, 1, 2, 1, 2, 1, 2, 1, 0, 0, 107, 10, 0, 0, 0, 0, 112, 128, 0, 4, 0, 0, 126,
    144, 1, 8, 0, 0, 119, 136, 1, 13, 0, 0, 126, 144, 0, 18, 76, 77, 84, 0, 72, 75, 84, 0, 72, 75,
    83, 84, 0, 72, 75, 87, 84, 0, 74, 83, 84, 0, 10, 72, 75, 84, 45, 56, 10,
];

/// `Asia/Hovd`.
#[verifier::opaque]
pub const ASIA_HOVD: [u8; 594] = [
    84, 90, 105, 102, 50, 0, 0, 0, 0, 0, 0, 0, 0, 0, 0, 0, 0, 0, 0, 0, 0, 0, 0, 0, 0, 0, 0, 0, 0,
    0, 0, 0, 0, 0, 0, 0, 0, 0, 0, 1, 0, 0, 0, 1, 0, 0, 0, 0, 0, 0, 0, 84, 90, 105, 102, 50, 0, 0,
    0, 0, 0, 0, 0, 0, 0, 0, 0, 0, 0, 0, 0, 0, 0, 0, 0, 0, 0, 0, 0, 0, 0, 0, 0, 0, 0, 0, 50, 0, 0,
    0, 4, 0, 0, 0, 16, 255, 255, 255, 255, 134, 211, 252, 148, 0, 0, 0, 0, 15, 11, 234, 160, 0, 0,
    0, 0, 24, 233, 214, 144, 0, 0, 0, 0, 25, 219, 11, 0, 0, 0, 0, 0, 26, 204, 91, 144, 0, 0, 0, 0,
    27, 188, 62, 128, 0, 0, 0, 0, 28, 172, 61, 144, 0, 0, 0, 0, 29, 156, 32, 128, 0, 0, 0, 0, 30,
    140, 31, 144, 0, 0, 0, 0, 31, 124, 2, 128, 0, 0, 0, 0, 32, 108, 1, 144, 0, 0, 0, 0, 33, 91,
    228, 128, 0, 0, 0, 0, 34, 75, 227, 144, 0, 0, 0, 0, 35, 59, 198, 128, 0, 0, 0, 0, 36, 43, 197,
    144, 0, 0, 0, 0, 37, 27, 168, 128, 0, 0, 0, 0, 38, 11, 167, 144, 0, 0, 0, 0, 39, 4, 197, 0, 0,
    0, 0, 0, 39, 244, 196, 16, 0, 0, 0, 0, 40, 228, 167, 0, 0, 0, 0, 0, 41, 212, 166, 16, 0, 0, 0,
    0, 42, 196, 137, 0, 0, 0, 0, 0, 43, 180, 136, 16, 0, 0, 0, 0, 44, 164, 107, 0, 0, 0, 0, 0, 45,
    148, 106, 16, 0, 0, 0, 0, 46, 132, 77, 0, 0, 0, 0, 0, 47, 116, 76, 16, 0, 0, 0, 0, 48, 100,
    47, 0, 0, 0, 0, 0, 49, 93, 104, 144, 0, 0, 0, 0, 50, 77, 75, 128, 0, 0, 0, 0, 51, 61, 74, 144,
    0, 0, 0, 0, 52, 45, 45, 128, 0, 0, 0, 0, 53, 29, 44, 144, 0, 0, 0, 0, 54, 13, 15, 128, 0, 0,
    0, 0, 58, 233, 193, 176, 0, 0, 0, 0, 59, 180, 186, 160, 0, 0, 0, 0, 60, 164, 185, 176, 0, 0,
    0, 0, 61, 148, 156, 160, 0, 0, 0, 0, 62, 132, 155, 176, 0, 0, 0, 0, 63, 116, 126, 160, 0, 0,
    0, 0, 64, 100, 125, 176, 0, 0, 0, 0, 65, 84, 96, 160, 0, 0, 0, 0, 66, 68, 95, 176, 0, 0, 0, 0,
    67, 52, 66, 160, 0, 0, 0, 0, 68, 36, 65, 176, 0, 0, 0, 0, 69, 29, 95, 32, 0, 0, 0, 0, 85, 21,
    168, 176, 0, 0, 0, 0, 86, 5, 111, 128, 0, 0, 0, 0, 86, 245, 138, 176, 0, 0, 0, 0, 87, 229, 81,
    128, 1, 3, 2, 3, 2, 3, 2, 3, 2, 3, 2, 3, 2, 3, 2, 3, 2, 3, 2, 3, 2, 3, 2, 3, 2, 3, 2, 3, 2, 3,
    2, 3, 2, 3, 2, 3, 2, 3, 2, 3, 2, 3, 2, 3, 2, 3, 2, 3, 2, 3, 0, 0, 85, 236, 0, 0, 0, 0, 84, 96,
    0, 4, 0, 0, 112, 128, 1, 8, 0, 0, 98, 112, 0, 12, 76, 77, 84, 0, 43, 48, 54, 0, 43, 48, 56, 0,
    43, 48, 55, 0, 10, 60, 43, 48, 55, 62, 45, 55, 10,
];

/// `Asia/Irkutsk`.
#[verifier::opaque]
pub const ASIA_IRKUTSK: [u8; 760] = [
    84, 90, 105, 102, 50, 0, 0, 0, 0, 0, 0, 0, 0, 0, 0, 0, 0, 0, 0, 0, 0, 0, 0, 0, 0, 0, 0, 0, 0,
    0, 0, 0, 0, 0, 0, 0, 0, 0, 0, 1, 0, 0, 0, 1, 0, 0, 0, 0, 0, 0, 0, 84, 90, 105, 102, 50, 0, 0,
    0, 0, 0, 0, 0, 0, 0, 0, 0, 0, 0, 0, 0, 0, 0, 0, 0, 0, 0, 0, 0, 0, 0, 0, 0, 0, 0, 0, 66, 0, 0,
    0, 7, 0, 0, 0, 20, 255, 255, 255, 255, 86, 182, 130, 63, 255, 255, 255, 255, 162, 18, 15, 191,
    255, 255, 255, 255, 181, 163, 211, 16, 0, 0, 0, 0, 21, 39, 97, 128, 0, 0, 0, 0, 22, 24, 149,
    240, 0, 0, 0, 0, 23, 8, 149, 0, 0, 0, 0, 0, 23, 249, 201, 112, 0, 0, 0, 0, 24, 233, 200, 128,
    0, 0, 0, 0, 25, 218, 252, 240, 0, 0, 0, 0, 26, 204, 77, 128, 0, 0, 0, 0, 27, 188, 90, 160, 0,
    0, 0, 0, 28, 172, 75, 160, 0, 0, 0, 0, 29, 156, 60, 160, 0, 0, 0, 0, 30, 140, 45, 160, 0, 0,
    0, 0, 31, 124, 30, 160, 0, 0, 0, 0, 32, 108, 15, 160, 0, 0, 0, 0, 33, 92, 0, 160, 0, 0, 0, 0,
    34, 75, 241, 160, 0, 0, 0, 0, 35, 59, 226, 160, 0, 0, 0, 0, 36, 43, 211, 160, 0, 0, 0, 0, 37,
    27, 196, 160, 0, 0, 0, 0, 38, 11, 181, 160, 0, 0, 0, 0, 39, 4, 225, 32, 0, 0, 0, 0, 39, 244,
    210, 32, 0, 0, 0, 0, 40, 228, 209, 48, 0, 0, 0, 0, 41, 120, 121, 48, 0, 0, 0, 0, 41, 212, 180,
    32, 0, 0, 0, 0, 42, 196, 165, 32, 0, 0, 0, 0, 43, 180, 150, 32, 0, 0, 0, 0, 44, 164, 135, 32,
    0, 0, 0, 0, 45, 148, 120, 32, 0, 0, 0, 0, 46, 132, 105, 32, 0, 0, 0, 0, 47, 116, 90, 32, 0, 0,
    0, 0, 48, 100, 75, 32, 0, 0, 0, 0, 49, 93, 118, 160, 0, 0, 0, 0, 50, 114, 81, 160, 0, 0, 0, 0,
    51, 61, 88, 160, 0, 0, 0, 0, 52, 82, 51, 160, 0, 0, 0, 0, 53, 29, 58, 160, 0, 0, 0, 0, 54, 50,
    21, 160, 0, 0, 0, 0, 54, 253, 28, 160, 0, 0, 0, 0, 56, 27, 50, 32, 0, 0, 0, 0, 56, 220, 254,
    160, 0, 0, 0, 0, 57, 251, 20, 32, 0, 0, 0, 0, 58, 188, 224, 160, 0, 0, 0, 0, 59, 218, 246, 32,
    0, 0, 0, 0, 60, 165, 253, 32, 0, 0, 0, 0, 61, 186, 216, 32, 0, 0, 0, 0, 62, 133, 223, 32, 0,
    0, 0, 0, 63, 154, 186, 32, 0, 0, 0, 0, 64, 101, 193, 32, 0, 0, 0, 0, 65, 131, 214, 160, 0, 0,
    0, 0, 66, 69, 163, 32, 0, 0, 0, 0, 67, 99, 184, 160, 0, 0, 0, 0, 68, 37, 133, 32, 0, 0, 0, 0,
    69, 67, 154, 160, 0, 0, 0, 0, 70, 5, 103, 32, 0, 0, 0, 0, 71, 35, 124, 160, 0, 0, 0, 0, 71,
    238, 131, 160, 0, 0, 0, 0, 73, 3, 94, 160, 0, 0, 0, 0, 73, 206, 101, 160, 0, 0, 0, 0, 74, 227,
    64, 160, 0, 0, 0, 0, 75, 174, 71, 160, 0, 0, 0, 0, 76, 204, 93, 32, 0, 0, 0, 0, 77, 142, 41,
    160, 0, 0, 0, 0, 84, 75, 215, 16, 1, 2, 4, 3, 4, 3, 4, 3, 4, 3, 4, 3, 4, 3, 4, 3, 4, 3, 4, 3,
    4, 3, 4, 5, 2, 4, 3, 4, 3, 4, 3, 4, 3, 4, 3, 4, 3, 4, 3, 4, 3, 4, 3, 4, 3, 4, 3, 4, 3, 4, 3,
    4, 3, 4, 3, 4, 3, 4, 3, 4, 3, 4, 3, 4, 6, 4, 0, 0, 97, 193, 0, 0, 0, 0, 97, 193, 0, 4, 0, 0,
    98, 112, 0, 8, 0, 0, 126, 144, 1, 12, 0, 0, 112, 128, 0, 16, 0, 0, 112, 128, 1, 16, 0, 0, 126,
    144, 0, 12, 76, 77, 84, 0, 73, 77, 84, 0, 43, 48, 55, 0, 43, 48, 57, 0, 43, 48, 56, 0, 10, 60,
    43, 48, 56, 62, 45, 56, 10,
];

/// `Asia/Jakarta`.
#[verifier::opaque]
pub const ASIA_JAKARTA: [u8; 248] = [
    84, 90, 105, 102, 50, 0, 0, 0, 0, 0, 0, 0, 0, 0, 0, 0, 0, 0, 0, 0, 0, 0, 0, 0, 0, 0, 0, 0, 0,
    0, 0, 0, 0, 0, 0, 0, 0, 0, 0, 1, 0, 0, 0, 1, 0, 0, 0, 0, 0, 0, 0, 84, 90, 105, 102, 50, 0, 0,
    0, 0, 0, 0, 0, 0, 0, 0, 0, 0, 0, 0, 0, 0, 0, 0, 0, 0, 0, 0, 0, 0, 0, 0, 0, 0, 0, 0, 8, 0, 0,
    0, 7, 0, 0, 0, 32, 255, 255, 255, 255, 63, 102, 73, 96, 255, 255, 255, 255, 169, 120, 133,
    224, 255, 255, 255, 255, 186, 22, 222, 96, 255, 255, 255, 255, 203, 191, 131, 136, 255, 255,
    255, 255, 210, 86, 238, 112, 255, 255, 255, 255, 215, 60, 198, 8, 255, 255, 255, 255, 218,
    255, 38, 0, 255, 255, 255, 255, 244, 181, 190, 136, 1, 2, 3, 4, 3, 5, 3, 6, 0, 0, 100, 32, 0,
    0, 0, 0, 100, 32, 0, 4, 0, 0, 103, 32, 0, 8, 0, 0, 105, 120, 0, 14, 0, 0, 126, 144, 0, 20, 0,
    0, 112, 128, 0, 24, 0, 0, 98, 112, 0, 28, 76, 77, 84, 0, 66, 77, 84, 0, 43, 48, 55, 50, 48, 0,
    43, 48, 55, 51, 48, 0, 43, 48, 57, 0, 43, 48, 56, 0, 87, 73, 66, 0, 10, 87, 73, 66, 45, 55,
    10,
];

/// `Asia/Jayapura`.
#[verifier::opaque]
pub const ASIA_JAYAPURA: [u8; 171] = [
    84, 90, 105, 102, 50, 0, 0, 0, 0, 0, 0, 0, 0, 0, 0, 0, 0, 0, 0, 0, 0, 0, 0, 0, 0, 0, 0, 0, 0,
    0, 0, 0, 0, 0, 0, 0, 0, 0, 0, 1, 0, 0, 0, 1, 0, 0, 0, 0, 0, 0, 0, 84, 90, 105, 102, 50, 0, 0,
    0, 0, 0, 0, 0, 0, 0, 0, 0, 0, 0, 0, 0, 0, 0, 0, 0, 0, 0, 0, 0, 0, 0, 0, 0, 0, 0, 0, 3, 0, 0,
    0, 4, 0, 0, 0, 18, 255, 255, 255, 255, 186, 22, 193, 152, 255, 255, 255, 255, 208, 88, 185,
    240, 255, 255, 255, 255, 244, 181, 162, 104, 1, 2, 3, 0, 0, 131, 232, 0, 0, 0, 0, 126, 144, 0,
    4, 0, 0, 133, 152, 0, 8, 0, 0, 126, 144, 0, 14, 76, 77, 84, 0, 43, 48, 57, 0, 43, 48, 57, 51,
    48, 0, 87, 73, 84, 0, 10, 87, 73, 84, 45, 57, 10,
];

/// `Asia/Jerusalem`.
#[verifier::opaque]
pub const ASIA_JERUSALEM: [u8; 1074] = [
    84, 90, 105, 102, 51, 0, 0, 0, 0, 0, 0, 0, 0, 0, 0, 0, 0, 0, 0, 0, 0, 0, 0, 0, 0, 0, 0, 0, 0,
    0, 0, 0, 0, 0, 0, 0, 0, 0, 0, 1, 0, 0, 0, 1, 0, 0, 0, 0, 0, 0, 0, 84, 90, 105, 102, 51, 0, 0,
    0, 0, 0, 0, 0, 0, 0, 0, 0, 0, 0, 0, 0, 0, 0, 0, 0, 0, 0, 0, 0, 0, 0, 0, 0, 0, 0, 0, 100, 0, 0,
    0, 5, 0, 0, 0, 21, 255, 255, 255, 255, 86, 182, 194, 250, 255, 255, 255, 255, 158, 48, 69,
    136, 255, 255, 255, 255, 200, 89, 207, 0, 255, 255, 255, 255, 200, 250, 166, 0, 255, 255, 255,
    255, 201, 56, 156, 128, 255, 255, 255, 255, 204, 229, 235, 128, 255, 255, 255, 255, 205, 172,
    254, 0, 255, 255, 255, 255, 206, 199, 31, 0, 255, 255, 255, 255, 207, 143, 131, 0, 255, 255,
    255, 255, 208, 169, 164, 0, 255, 255, 255, 255, 209, 132, 125, 0, 255, 255, 255, 255, 210,
    138, 215, 128, 255, 255, 255, 255, 211, 101, 176, 128, 255, 255, 255, 255, 212, 108, 11, 0,
    255, 255, 255, 255, 215, 90, 48, 128, 255, 255, 255, 255, 215, 223, 88, 0, 255, 255, 255, 255,
    216, 47, 195, 128, 255, 255, 255, 255, 217, 30, 99, 0, 255, 255, 255, 255, 218, 16, 247, 0,
    255, 255, 255, 255, 218, 235, 208, 0, 255, 255, 255, 255, 219, 180, 52, 0, 255, 255, 255, 255,
    220, 185, 61, 0, 255, 255, 255, 255, 221, 224, 141, 0, 255, 255, 255, 255, 222, 180, 206, 128,
    255, 255, 255, 255, 223, 164, 191, 128, 255, 255, 255, 255, 224, 139, 118, 0, 255, 255, 255,
    255, 225, 86, 125, 0, 255, 255, 255, 255, 226, 190, 102, 128, 255, 255, 255, 255, 227, 54, 95,
    0, 255, 255, 255, 255, 228, 158, 72, 128, 255, 255, 255, 255, 229, 22, 65, 0, 255, 255, 255,
    255, 230, 116, 240, 0, 255, 255, 255, 255, 231, 17, 210, 128, 255, 255, 255, 255, 232, 38,
    173, 128, 255, 255, 255, 255, 232, 232, 122, 0, 0, 0, 0, 0, 8, 124, 139, 224, 0, 0, 0, 0, 8,
    253, 176, 208, 0, 0, 0, 0, 9, 246, 234, 96, 0, 0, 0, 0, 10, 166, 51, 208, 0, 0, 0, 0, 19, 233,
    252, 96, 0, 0, 0, 0, 20, 33, 91, 96, 0, 0, 0, 0, 26, 250, 198, 96, 0, 0, 0, 0, 27, 142, 110,
    96, 0, 0, 0, 0, 28, 190, 248, 224, 0, 0, 0, 0, 29, 119, 124, 208, 0, 0, 0, 0, 30, 204, 255,
    96, 0, 0, 0, 0, 31, 96, 153, 80, 0, 0, 0, 0, 32, 130, 177, 96, 0, 0, 0, 0, 33, 73, 181, 208,
    0, 0, 0, 0, 34, 94, 158, 224, 0, 0, 0, 0, 35, 32, 93, 80, 0, 0, 0, 0, 36, 90, 48, 96, 0, 0, 0,
    0, 37, 0, 63, 80, 0, 0, 0, 0, 38, 11, 237, 224, 0, 0, 0, 0, 38, 214, 230, 208, 0, 0, 0, 0, 39,
    235, 207, 224, 0, 0, 0, 0, 40, 192, 3, 80, 0, 0, 0, 0, 41, 212, 236, 96, 0, 0, 0, 0, 42, 169,
    31, 208, 0, 0, 0, 0, 43, 187, 101, 224, 0, 0, 0, 0, 44, 137, 1, 208, 0, 0, 0, 0, 45, 155, 71,
    224, 0, 0, 0, 0, 46, 95, 169, 80, 0, 0, 0, 0, 47, 123, 41, 224, 0, 0, 0, 0, 48, 72, 197, 208,
    0, 0, 0, 0, 49, 72, 150, 224, 0, 0, 0, 0, 50, 60, 110, 80, 0, 0, 0, 0, 51, 49, 179, 96, 0, 0,
    0, 0, 52, 26, 254, 208, 0, 0, 0, 0, 53, 17, 149, 96, 0, 0, 0, 0, 53, 241, 166, 80, 0, 0, 0, 0,
    55, 4, 8, 128, 0, 0, 0, 0, 55, 207, 1, 112, 0, 0, 0, 0, 56, 246, 95, 128, 0, 0, 0, 0, 57, 220,
    249, 224, 0, 0, 0, 0, 58, 208, 237, 112, 0, 0, 0, 0, 59, 174, 91, 96, 0, 0, 0, 0, 60, 163,
    160, 112, 0, 0, 0, 0, 61, 160, 178, 96, 0, 0, 0, 0, 62, 131, 130, 112, 0, 0, 0, 0, 63, 124,
    159, 224, 0, 0, 0, 0, 64, 115, 54, 112, 0, 0, 0, 0, 65, 80, 164, 96, 0, 0, 0, 0, 66, 76, 143,
    0, 0, 0, 0, 0, 67, 72, 79, 112, 0, 0, 0, 0, 68, 44, 113, 0, 0, 0, 0, 0, 69, 30, 246, 240, 0,
    0, 0, 0, 70, 12, 83, 0, 0, 0, 0, 0, 70, 236, 99, 240, 0, 0, 0, 0, 71, 236, 53, 0, 0, 0, 0, 0,
    72, 231, 245, 112, 0, 0, 0, 0, 73, 204, 23, 0, 0, 0, 0, 0, 74, 190, 156, 240, 0, 0, 0, 0, 75,
    171, 249, 0, 0, 0, 0, 0, 76, 140, 9, 240, 0, 0, 0, 0, 77, 149, 21, 128, 0, 0, 0, 0, 78, 135,
    155, 112, 0, 0, 0, 0, 79, 116, 247, 128, 0, 0, 0, 0, 80, 94, 66, 240, 0, 0, 0, 0, 81, 84, 217,
    128, 1, 3, 2, 3, 2, 3, 2, 3, 2, 3, 2, 3, 2, 3, 4, 2, 3, 2, 3, 2, 3, 2, 3, 2, 3, 2, 3, 2, 3, 2,
    3, 2, 3, 2, 3, 2, 3, 2, 3, 2, 3, 2, 3, 2, 3, 2, 3, 2, 3, 2, 3, 2, 3, 2, 3, 2, 3, 2, 3, 2, 3,
    2, 3, 2, 3, 2, 3, 2, 3, 2, 3, 2, 3, 2, 3, 2, 3, 2, 3, 2, 3, 2, 3, 2, 3, 2, 3, 2, 3, 2, 3, 2,
    3, 2, 3, 2, 3, 2, 3, 2, 0, 0, 33, 6, 0, 0, 0, 0, 32, 248, 0, 4, 0, 0, 42, 48, 1, 8, 0, 0, 28,
    32, 0, 12, 0, 0, 56, 64, 1, 16, 76, 77, 84, 0, 74, 77, 84, 0, 73, 68, 84, 0, 73, 83, 84, 0,
    73, 68, 68, 84, 0, 10, 73, 83, 84, 45, 50, 73, 68, 84, 44, 77, 51, 46, 52, 46, 52, 47, 50, 54,
    44, 77, 49, 48, 46, 53, 46, 48, 10,
];

/// `Asia/Kabul`.
#[verifier::opaque]
pub const ASIA_KABUL: [u8; 159] = [
    84, 90, 105, 102, 50, 0, 0, 0, 0, 0, 0, 0, 0, 0, 0, 0, 0, 0, 0, 0, 0, 0, 0, 0, 0, 0, 0, 0, 0,
    0, 0, 0, 0, 0, 0, 0, 0, 0, 0, 1, 0, 0, 0, 1, 0, 0, 0, 0, 0, 0, 0, 84, 90, 105, 102, 50, 0, 0,
    0, 0, 0, 0, 0, 0, 0, 0, 0, 0, 0, 0, 0, 0, 0, 0, 0, 0, 0, 0, 0, 0, 0, 0, 0, 0, 0, 0, 2, 0, 0,
    0, 3, 0, 0, 0, 14, 255, 255, 255, 255, 105, 134, 154, 160, 255, 255, 255, 255, 208, 249, 215,
    64, 1, 2, 0, 0, 64, 224, 0, 0, 0, 0, 56, 64, 0, 4, 0, 0, 63, 72, 0, 8, 76, 77, 84, 0, 43, 48,
    52, 0, 43, 48, 52, 51, 48, 0, 10, 60, 43, 48, 52, 51, 48, 62, 45, 52, 58, 51, 48, 10,
];

/// `Asia/Kamchatka`.
#[verifier::opaque]
pub const ASIA_KAMCHATKA: [u8; 727] = [
    84, 90, 105, 102, 50, 0, 0, 0, 0, 0, 0, 0, 0, 0, 0, 0, 0, 0, 0, 0, 0, 0, 0, 0, 0, 0, 0, 0, 0,
    0, 0, 0, 0, 0, 0, 0, 0, 0, 0, 1, 0, 0, 0, 1, 0, 0, 0, 0, 0, 0, 0, 84, 90, 105, 102, 50, 0, 0,
    0, 0, 0, 0, 0, 0, 0, 0, 0, 0, 0, 0, 0, 0, 0, 0, 0, 0, 0, 0, 0, 0, 0, 0, 0, 0, 0, 0, 64, 0, 0,
    0, 5, 0, 0, 0, 16, 255, 255, 255, 255, 167, 82, 150, 196, 255, 255, 255, 255, 181, 163, 154,
    208, 0, 0, 0, 0, 21, 39, 41, 64, 0, 0, 0, 0, 22, 24, 93, 176, 0, 0, 0, 0, 23, 8, 92, 192, 0,
    0, 0, 0, 23, 249, 145, 48, 0, 0, 0, 0, 24, 233, 144, 64, 0, 0, 0, 0, 25, 218, 196, 176, 0, 0,
    0, 0, 26, 204, 21, 64, 0, 0, 0, 0, 27, 188, 34, 96, 0, 0, 0, 0, 28, 172, 19, 96, 0, 0, 0, 0,
    29, 156, 4, 96, 0, 0, 0, 0, 30, 139, 245, 96, 0, 0, 0, 0, 31, 123, 230, 96, 0, 0, 0, 0, 32,
    107, 215, 96, 0, 0, 0, 0, 33, 91, 200, 96, 0, 0, 0, 0, 34, 75, 185, 96, 0, 0, 0, 0, 35, 59,
    170, 96, 0, 0, 0, 0, 36, 43, 155, 96, 0, 0, 0, 0, 37, 27, 140, 96, 0, 0, 0, 0, 38, 11, 125,
    96, 0, 0, 0, 0, 39, 4, 168, 224, 0, 0, 0, 0, 39, 244, 153, 224, 0, 0, 0, 0, 40, 228, 152, 240,
    0, 0, 0, 0, 41, 120, 64, 240, 0, 0, 0, 0, 41, 212, 123, 224, 0, 0, 0, 0, 42, 196, 108, 224, 0,
    0, 0, 0, 43, 180, 93, 224, 0, 0, 0, 0, 44, 164, 78, 224, 0, 0, 0, 0, 45, 148, 63, 224, 0, 0,
    0, 0, 46, 132, 48, 224, 0, 0, 0, 0, 47, 116, 33, 224, 0, 0, 0, 0, 48, 100, 18, 224, 0, 0, 0,
    0, 49, 93, 62, 96, 0, 0, 0, 0, 50, 114, 25, 96, 0, 0, 0, 0, 51, 61, 32, 96, 0, 0, 0, 0, 52,
    81, 251, 96, 0, 0, 0, 0, 53, 29, 2, 96, 0, 0, 0, 0, 54, 49, 221, 96, 0, 0, 0, 0, 54, 252, 228,
    96, 0, 0, 0, 0, 56, 26, 249, 224, 0, 0, 0, 0, 56, 220, 198, 96, 0, 0, 0, 0, 57, 250, 219, 224,
    0, 0, 0, 0, 58, 188, 168, 96, 0, 0, 0, 0, 59, 218, 189, 224, 0, 0, 0, 0, 60, 165, 196, 224, 0,
    0, 0, 0, 61, 186, 159, 224, 0, 0, 0, 0, 62, 133, 166, 224, 0, 0, 0, 0, 63, 154, 129, 224, 0,
    0, 0, 0, 64, 101, 136, 224, 0, 0, 0, 0, 65, 131, 158, 96, 0, 0, 0, 0, 66, 69, 106, 224, 0, 0,
    0, 0, 67, 99, 128, 96, 0, 0, 0, 0, 68, 37, 76, 224, 0, 0, 0, 0, 69, 67, 98, 96, 0, 0, 0, 0,
    70, 5, 46, 224, 0, 0, 0, 0, 71, 35, 68, 96, 0, 0, 0, 0, 71, 238, 75, 96, 0, 0, 0, 0, 73, 3,
    38, 96, 0, 0, 0, 0, 73, 206, 45, 96, 0, 0, 0, 0, 74, 227, 8, 96, 0, 0, 0, 0, 75, 174, 15, 96,
    0, 0, 0, 0, 76, 204, 50, 240, 0, 0, 0, 0, 77, 141, 255, 112, 1, 3, 2, 3, 2, 3, 2, 3, 2, 3, 2,
    3, 2, 3, 2, 3, 2, 3, 2, 3, 2, 3, 4, 1, 3, 2, 3, 2, 3, 2, 3, 2, 3, 2, 3, 2, 3, 2, 3, 2, 3, 2,
    3, 2, 3, 2, 3, 2, 3, 2, 3, 2, 3, 2, 3, 2, 3, 2, 3, 2, 3, 4, 1, 3, 0, 0, 148, 188, 0, 0, 0, 0,
    154, 176, 0, 4, 0, 0, 182, 208, 1, 8, 0, 0, 168, 192, 0, 12, 0, 0, 168, 192, 1, 12, 76, 77,
    84, 0, 43, 49, 49, 0, 43, 49, 51, 0, 43, 49, 50, 0, 10, 60, 43, 49, 50, 62, 45, 49, 50, 10,
];

/// `Asia/Karachi`.
#[verifier::opaque]
pub const ASIA_KARACHI: [u8; 266] = [
    84, 90, 105, 102, 50, 0, 0, 0, 0, 0, 0, 0, 0, 0, 0, 0, 0, 0, 0, 0, 0, 0, 0, 0, 0, 0, 0, 0, 0,
    0, 0, 0, 0, 0, 0, 0, 0, 0, 0, 1, 0, 0, 0, 1, 0, 0, 0, 0, 0, 0, 0, 84, 90, 105, 102, 50, 0, 0,
    0, 0, 0, 0, 0, 0, 0, 0, 0, 0, 0, 0, 0, 0, 0, 0, 0, 0, 0, 0, 0, 0, 0, 0, 0, 0, 0, 0, 11, 0, 0,
    0, 6, 0, 0, 0, 29, 255, 255, 255, 255, 137, 126, 252, 164, 255, 255, 255, 255, 204, 149, 50,
    168, 255, 255, 255, 255, 210, 116, 18, 152, 255, 255, 255, 255, 221, 168, 224, 168, 0, 0, 0,
    0, 2, 79, 171, 48, 0, 0, 0, 0, 60, 175, 69, 176, 0, 0, 0, 0, 61, 159, 40, 160, 0, 0, 0, 0, 72,
    65, 160, 48, 0, 0, 0, 0, 73, 11, 71, 160, 0, 0, 0, 0, 73, 228, 221, 48, 0, 0, 0, 0, 74, 236,
    123, 32, 1, 2, 1, 3, 5, 4, 5, 4, 5, 4, 5, 0, 0, 62, 220, 0, 0, 0, 0, 77, 88, 0, 4, 0, 0, 91,
    104, 1, 10, 0, 0, 70, 80, 0, 16, 0, 0, 84, 96, 1, 20, 0, 0, 70, 80, 0, 25, 76, 77, 84, 0, 43,
    48, 53, 51, 48, 0, 43, 48, 54, 51, 48, 0, 43, 48, 53, 0, 80, 75, 83, 84, 0, 80, 75, 84, 0, 10,
    80, 75, 84, 45, 53, 10,
];

/// `Asia/Kathmandu`.
#[verifier::opaque]
pub const ASIA_KATHMANDU: [u8; 161] = [
    84, 90, 105, 102, 50, 0, 0, 0, 0, 0, 0, 0, 0, 0, 0, 0, 0, 0, 0, 0, 0, 0, 0, 0, 0, 0, 0, 0, 0,
    0, 0, 0, 0, 0, 0, 0, 0, 0, 0, 1, 0, 0, 0, 1, 0, 0, 0, 0, 0, 0, 0, 84, 90, 105, 102, 50, 0, 0,
    0, 0, 0, 0, 0, 0, 0, 0, 0, 0, 0, 0, 0, 0, 0, 0, 0, 0, 0, 0, 0, 0, 0, 0, 0, 0, 0, 0, 2, 0, 0,
    0, 3, 0, 0, 0, 16, 255, 255, 255, 255, 161, 242, 125, 132, 0, 0, 0, 0, 30, 24, 48, 168, 1, 2,
    0, 0, 79, 252, 0, 0, 0, 0, 77, 88, 0, 4, 0, 0, 80, 220, 0, 10, 76, 77, 84, 0, 43, 48, 53, 51,
    48, 0, 43, 48, 53, 52, 53, 0, 10, 60, 43, 48, 53, 52, 53, 62, 45, 53, 58, 52, 53, 10,
];

/// `Asia/Khandyga`.
#[verifier::opaque]
pub const ASIA_KHANDYGA: [u8; 775] = [
    84, 90, 105, 102, 50, 0, 0, 0, 0, 0, 0, 0, 0, 0, 0, 0, 0, 0, 0, 0, 0, 0, 0, 0, 0, 0, 0, 0, 0,
    0, 0, 0, 0, 0, 0, 0, 0, 0, 0, 1, 0, 0, 0, 1, 0, 0, 0, 0, 0, 0, 0, 84, 90, 105, 102, 50, 0, 0,
    0, 0, 0, 0, 0, 0, 0, 0, 0, 0, 0, 0, 0, 0, 0, 0, 0, 0, 0, 0, 0, 0, 0, 0, 0, 0, 0, 0, 67, 0, 0,
    0, 8, 0, 0, 0, 20, 255, 255, 255, 255, 161, 219, 228, 235, 255, 255, 255, 255, 181, 163, 197,
    0, 0, 0, 0, 0, 21, 39, 83, 112, 0, 0, 0, 0, 22, 24, 135, 224, 0, 0, 0, 0, 23, 8, 134, 240, 0,
    0, 0, 0, 23, 249, 187, 96, 0, 0, 0, 0, 24, 233, 186, 112, 0, 0, 0, 0, 25, 218, 238, 224, 0, 0,
    0, 0, 26, 204, 63, 112, 0, 0, 0, 0, 27, 188, 76, 144, 0, 0, 0, 0, 28, 172, 61, 144, 0, 0, 0,
    0, 29, 156, 46, 144, 0, 0, 0, 0, 30, 140, 31, 144, 0, 0, 0, 0, 31, 124, 16, 144, 0, 0, 0, 0,
    32, 108, 1, 144, 0, 0, 0, 0, 33, 91, 242, 144, 0, 0, 0, 0, 34, 75, 227, 144, 0, 0, 0, 0, 35,
    59, 212, 144, 0, 0, 0, 0, 36, 43, 197, 144, 0, 0, 0, 0, 37, 27, 182, 144, 0, 0, 0, 0, 38, 11,
    167, 144, 0, 0, 0, 0, 39, 4, 211, 16, 0, 0, 0, 0, 39, 244, 196, 16, 0, 0, 0, 0, 40, 228, 195,
    32, 0, 0, 0, 0, 41, 120, 107, 32, 0, 0, 0, 0, 41, 212, 166, 16, 0, 0, 0, 0, 42, 196, 151, 16,
    0, 0, 0, 0, 43, 180, 136, 16, 0, 0, 0, 0, 44, 164, 121, 16, 0, 0, 0, 0, 45, 148, 106, 16, 0,
    0, 0, 0, 46, 132, 91, 16, 0, 0, 0, 0, 47, 116, 76, 16, 0, 0, 0, 0, 48, 100, 61, 16, 0, 0, 0,
    0, 49, 93, 104, 144, 0, 0, 0, 0, 50, 114, 67, 144, 0, 0, 0, 0, 51, 61, 74, 144, 0, 0, 0, 0,
    52, 82, 37, 144, 0, 0, 0, 0, 53, 29, 44, 144, 0, 0, 0, 0, 54, 50, 7, 144, 0, 0, 0, 0, 54, 253,
    14, 144, 0, 0, 0, 0, 56, 27, 36, 16, 0, 0, 0, 0, 56, 220, 240, 144, 0, 0, 0, 0, 57, 251, 6,
    16, 0, 0, 0, 0, 58, 188, 210, 144, 0, 0, 0, 0, 59, 218, 232, 16, 0, 0, 0, 0, 60, 165, 239, 16,
    0, 0, 0, 0, 61, 186, 202, 16, 0, 0, 0, 0, 62, 133, 209, 16, 0, 0, 0, 0, 63, 154, 172, 16, 0,
    0, 0, 0, 63, 242, 228, 112, 0, 0, 0, 0, 64, 101, 165, 0, 0, 0, 0, 0, 65, 131, 186, 128, 0, 0,
    0, 0, 66, 69, 135, 0, 0, 0, 0, 0, 67, 99, 156, 128, 0, 0, 0, 0, 68, 37, 105, 0, 0, 0, 0, 0,
    69, 67, 126, 128, 0, 0, 0, 0, 70, 5, 75, 0, 0, 0, 0, 0, 71, 35, 96, 128, 0, 0, 0, 0, 71, 238,
    103, 128, 0, 0, 0, 0, 73, 3, 66, 128, 0, 0, 0, 0, 73, 206, 73, 128, 0, 0, 0, 0, 74, 227, 36,
    128, 0, 0, 0, 0, 75, 174, 43, 128, 0, 0, 0, 0, 76, 204, 65, 0, 0, 0, 0, 0, 77, 142, 13, 128,
    0, 0, 0, 0, 78, 110, 2, 80, 0, 0, 0, 0, 84, 75, 201, 0, 1, 3, 2, 3, 2, 3, 2, 3, 2, 3, 2, 3, 2,
    3, 2, 3, 2, 3, 2, 3, 2, 3, 4, 1, 3, 2, 3, 2, 3, 2, 3, 2, 3, 2, 3, 2, 3, 2, 3, 2, 3, 2, 3, 2,
    3, 2, 3, 2, 3, 6, 5, 6, 5, 6, 5, 6, 5, 6, 5, 6, 5, 6, 5, 6, 7, 6, 3, 0, 0, 127, 21, 0, 0, 0,
    0, 112, 128, 0, 4, 0, 0, 140, 160, 1, 8, 0, 0, 126, 144, 0, 12, 0, 0, 126, 144, 1, 12, 0, 0,
    154, 176, 1, 16, 0, 0, 140, 160, 0, 8, 0, 0, 154, 176, 0, 16, 76, 77, 84, 0, 43, 48, 56, 0,
    43, 49, 48, 0, 43, 48, 57, 0, 43, 49, 49, 0, 10, 60, 43, 48, 57, 62, 45, 57, 10,
];

/// `Asia/Kolkata`.
#[verifier::opaque]
pub const ASIA_KOLKATA: [u8; 220] = [
    84, 90, 105, 102, 50, 0, 0, 0, 0, 0, 0, 0, 0, 0, 0, 0, 0, 0, 0, 0, 0, 0, 0, 0, 0, 0, 0, 0, 0,
    0, 0, 0, 0, 0, 0, 0, 0, 0, 0, 1, 0, 0, 0, 1, 0, 0, 0, 0, 0, 0, 0, 84, 90, 105, 102, 50, 0, 0,
    0, 0, 0, 0, 0, 0, 0, 0, 0, 0, 0, 0, 0, 0, 0, 0, 0, 0, 0, 0, 0, 0, 0, 0, 0, 0, 0, 0, 7, 0, 0,
    0, 5, 0, 0, 0, 22, 255, 255, 255, 255, 38, 186, 24, 40, 255, 255, 255, 255, 67, 231, 235, 48,
    255, 255, 255, 255, 135, 157, 188, 186, 255, 255, 255, 255, 202, 219, 140, 40, 255, 255, 255,
    255, 204, 5, 113, 24, 255, 255, 255, 255, 204, 149, 50, 168, 255, 255, 255, 255, 210, 116, 18,
    152, 1, 2, 3, 4, 3, 4, 3, 0, 0, 82, 216, 0, 0, 0, 0, 82, 208, 0, 4, 0, 0, 75, 70, 0, 8, 0, 0,
    77, 88, 0, 12, 0, 0, 91, 104, 1, 16, 76, 77, 84, 0, 72, 77, 84, 0, 77, 77, 84, 0, 73, 83, 84,
    0, 43, 48, 54, 51, 48, 0, 10, 73, 83, 84, 45, 53, 58, 51, 48, 10,
];

/// `Asia/Krasnoyarsk`.
#[verifier::opaque]
pub const ASIA_KRASNOYARSK: [u8; 741] = [
    84, 90, 105, 102, 50, 0, 0, 0, 0, 0, 0, 0, 0, 0, 0, 0, 0, 0, 0, 0, 0, 0, 0, 0, 0, 0, 0, 0, 0,
    0, 0, 0, 0, 0, 0, 0, 0, 0, 0, 1, 0, 0, 0, 1, 0, 0, 0, 0, 0, 0, 0, 84, 90, 105, 102, 50, 0, 0,
    0, 0, 0, 0, 0, 0, 0, 0, 0, 0, 0, 0, 0, 0, 0, 0, 0, 0, 0, 0, 0, 0, 0, 0, 0, 0, 0, 0, 65, 0, 0,
    0, 6, 0, 0, 0, 16, 255, 255, 255, 255, 161, 249, 13, 242, 255, 255, 255, 255, 181, 163, 225,
    32, 0, 0, 0, 0, 21, 39, 111, 144, 0, 0, 0, 0, 22, 24, 164, 0, 0, 0, 0, 0, 23, 8, 163, 16, 0,
    0, 0, 0, 23, 249, 215, 128, 0, 0, 0, 0, 24, 233, 214, 144, 0, 0, 0, 0, 25, 219, 11, 0, 0, 0,
    0, 0, 26, 204, 91, 144, 0, 0, 0, 0, 27, 188, 104, 176, 0, 0, 0, 0, 28, 172, 89, 176, 0, 0, 0,
    0, 29, 156, 74, 176, 0, 0, 0, 0, 30, 140, 59, 176, 0, 0, 0, 0, 31, 124, 44, 176, 0, 0, 0, 0,
    32, 108, 29, 176, 0, 0, 0, 0, 33, 92, 14, 176, 0, 0, 0, 0, 34, 75, 255, 176, 0, 0, 0, 0, 35,
    59, 240, 176, 0, 0, 0, 0, 36, 43, 225, 176, 0, 0, 0, 0, 37, 27, 210, 176, 0, 0, 0, 0, 38, 11,
    195, 176, 0, 0, 0, 0, 39, 4, 239, 48, 0, 0, 0, 0, 39, 244, 224, 48, 0, 0, 0, 0, 40, 228, 223,
    64, 0, 0, 0, 0, 41, 120, 135, 64, 0, 0, 0, 0, 41, 212, 194, 48, 0, 0, 0, 0, 42, 196, 179, 48,
    0, 0, 0, 0, 43, 180, 164, 48, 0, 0, 0, 0, 44, 164, 149, 48, 0, 0, 0, 0, 45, 148, 134, 48, 0,
    0, 0, 0, 46, 132, 119, 48, 0, 0, 0, 0, 47, 116, 104, 48, 0, 0, 0, 0, 48, 100, 89, 48, 0, 0, 0,
    0, 49, 93, 132, 176, 0, 0, 0, 0, 50, 114, 95, 176, 0, 0, 0, 0, 51, 61, 102, 176, 0, 0, 0, 0,
    52, 82, 65, 176, 0, 0, 0, 0, 53, 29, 72, 176, 0, 0, 0, 0, 54, 50, 35, 176, 0, 0, 0, 0, 54,
    253, 42, 176, 0, 0, 0, 0, 56, 27, 64, 48, 0, 0, 0, 0, 56, 221, 12, 176, 0, 0, 0, 0, 57, 251,
    34, 48, 0, 0, 0, 0, 58, 188, 238, 176, 0, 0, 0, 0, 59, 219, 4, 48, 0, 0, 0, 0, 60, 166, 11,
    48, 0, 0, 0, 0, 61, 186, 230, 48, 0, 0, 0, 0, 62, 133, 237, 48, 0, 0, 0, 0, 63, 154, 200, 48,
    0, 0, 0, 0, 64, 101, 207, 48, 0, 0, 0, 0, 65, 131, 228, 176, 0, 0, 0, 0, 66, 69, 177, 48, 0,
    0, 0, 0, 67, 99, 198, 176, 0, 0, 0, 0, 68, 37, 147, 48, 0, 0, 0, 0, 69, 67, 168, 176, 0, 0, 0,
    0, 70, 5, 117, 48, 0, 0, 0, 0, 71, 35, 138, 176, 0, 0, 0, 0, 71, 238, 145, 176, 0, 0, 0, 0,
    73, 3, 108, 176, 0, 0, 0, 0, 73, 206, 115, 176, 0, 0, 0, 0, 74, 227, 78, 176, 0, 0, 0, 0, 75,
    174, 85, 176, 0, 0, 0, 0, 76, 204, 107, 48, 0, 0, 0, 0, 77, 142, 55, 176, 0, 0, 0, 0, 84, 75,
    229, 32, 1, 3, 2, 3, 2, 3, 2, 3, 2, 3, 2, 3, 2, 3, 2, 3, 2, 3, 2, 3, 2, 3, 4, 1, 3, 2, 3, 2,
    3, 2, 3, 2, 3, 2, 3, 2, 3, 2, 3, 2, 3, 2, 3, 2, 3, 2, 3, 2, 3, 2, 3, 2, 3, 2, 3, 2, 3, 2, 3,
    2, 3, 2, 3, 5, 3, 0, 0, 87, 14, 0, 0, 0, 0, 84, 96, 0, 4, 0, 0, 112, 128, 1, 8, 0, 0, 98, 112,
    0, 12, 0, 0, 98, 112, 1, 12, 0, 0, 112, 128, 0, 8, 76, 77, 84, 0, 43, 48, 54, 0, 43, 48, 56,
    0, 43, 48, 55, 0, 10, 60, 43, 48, 55, 62, 45, 55, 10,
];

/// `Asia/Kuching`.
#[verifier::opaque]
pub const ASIA_KUCHING: [u8; 320] = [
    84, 90, 105, 102, 50, 0, 0, 0, 0, 0, 0, 0, 0, 0, 0, 0, 0, 0, 0, 0, 0, 0, 0, 0, 0, 0, 0, 0, 0,
    0, 0, 0, 0, 0, 0, 0, 0, 0, 0, 1, 0, 0, 0, 1, 0, 0, 0, 0, 0, 0, 0, 84, 90, 105, 102, 50, 0, 0,
    0, 0, 0, 0, 0, 0, 0, 0, 0, 0, 0, 0, 0, 0, 0, 0, 0, 0, 0, 0, 0, 0, 0, 0, 0, 0, 0, 0, 18, 0, 0,
    0, 5, 0, 0, 0, 24, 255, 255, 255, 255, 173, 138, 6, 144, 255, 255, 255, 255, 186, 103, 71,
    136, 255, 255, 255, 255, 191, 123, 39, 128, 255, 255, 255, 255, 191, 243, 27, 80, 255, 255,
    255, 255, 193, 93, 172, 128, 255, 255, 255, 255, 193, 213, 160, 80, 255, 255, 255, 255, 195,
    62, 224, 0, 255, 255, 255, 255, 195, 182, 211, 208, 255, 255, 255, 255, 197, 32, 19, 128, 255,
    255, 255, 255, 197, 152, 7, 80, 255, 255, 255, 255, 199, 1, 71, 0, 255, 255, 255, 255, 199,
    121, 58, 208, 255, 255, 255, 255, 200, 227, 204, 0, 255, 255, 255, 255, 201, 91, 191, 208,
    255, 255, 255, 255, 202, 196, 255, 128, 255, 255, 255, 255, 203, 60, 243, 80, 255, 255, 255,
    255, 203, 145, 88, 0, 255, 255, 255, 255, 210, 72, 109, 240, 1, 3, 2, 3, 2, 3, 2, 3, 2, 3, 2,
    3, 2, 3, 2, 3, 4, 3, 0, 0, 103, 112, 0, 0, 0, 0, 105, 120, 0, 4, 0, 0, 117, 48, 1, 10, 0, 0,
    112, 128, 0, 16, 0, 0, 126, 144, 0, 20, 76, 77, 84, 0, 43, 48, 55, 51, 48, 0, 43, 48, 56, 50,
    48, 0, 43, 48, 56, 0, 43, 48, 57, 0, 10, 60, 43, 48, 56, 62, 45, 56, 10,
];

/// `Asia/Macau`.
#[verifier::opaque]
pub const ASIA_MACAU: [u8; 791] = [
    84, 90, 105, 102, 50, 0, 0, 0, 0, 0, 0, 0, 0, 0, 0, 0, 0, 0, 0, 0, 0, 0, 0, 0, 0, 0, 0, 0, 0,
    0, 0, 0, 0, 0, 0, 0, 0, 0, 0, 1, 0, 0, 0, 1, 0, 0, 0, 0, 0, 0, 0, 84, 90, 105, 102, 50, 0, 0,
    0, 0, 0, 0, 0, 0, 0, 0, 0, 0, 0, 0, 0, 0, 0, 0, 0, 0, 0, 0, 0, 0, 0, 0, 0, 0, 0, 0, 71, 0, 0,
    0, 5, 0, 0, 0, 20, 255, 255, 255, 255, 133, 105, 91, 142, 255, 255, 255, 255, 203, 71, 117,
    240, 255, 255, 255, 255, 203, 242, 202, 224, 255, 255, 255, 255, 204, 251, 186, 80, 255, 255,
    255, 255, 205, 211, 254, 96, 255, 255, 255, 255, 206, 157, 165, 208, 255, 255, 255, 255, 210,
    97, 122, 112, 255, 255, 255, 255, 211, 120, 248, 112, 255, 255, 255, 255, 212, 66, 173, 240,
    255, 255, 255, 255, 213, 75, 171, 112, 255, 255, 255, 255, 214, 116, 76, 240, 255, 255, 255,
    255, 215, 63, 83, 240, 255, 255, 255, 255, 216, 47, 68, 240, 255, 255, 255, 255, 216, 248,
    250, 112, 255, 255, 255, 255, 218, 13, 213, 112, 255, 255, 255, 255, 218, 216, 220, 112, 255,
    255, 255, 255, 219, 237, 183, 112, 255, 255, 255, 255, 220, 184, 190, 112, 255, 255, 255, 255,
    221, 206, 234, 240, 255, 255, 255, 255, 222, 161, 218, 240, 255, 255, 255, 255, 223, 182, 181,
    240, 255, 255, 255, 255, 224, 129, 188, 240, 255, 255, 255, 255, 225, 150, 151, 240, 255, 255,
    255, 255, 226, 79, 41, 240, 255, 255, 255, 255, 227, 118, 121, 240, 255, 255, 255, 255, 228,
    47, 11, 240, 255, 255, 255, 255, 229, 95, 150, 112, 255, 255, 255, 255, 230, 14, 237, 240,
    255, 255, 255, 255, 231, 63, 169, 168, 255, 255, 255, 255, 231, 248, 73, 184, 255, 255, 255,
    255, 233, 31, 139, 168, 255, 255, 255, 255, 233, 216, 43, 184, 255, 255, 255, 255, 234, 255,
    109, 168, 255, 255, 255, 255, 235, 184, 13, 184, 255, 255, 255, 255, 236, 223, 79, 168, 255,
    255, 255, 255, 237, 151, 239, 184, 255, 255, 255, 255, 238, 200, 108, 40, 255, 255, 255, 255,
    239, 119, 209, 184, 255, 255, 255, 255, 240, 168, 78, 40, 255, 255, 255, 255, 241, 87, 179,
    184, 255, 255, 255, 255, 242, 136, 48, 40, 255, 255, 255, 255, 243, 64, 208, 56, 255, 255,
    255, 255, 244, 104, 18, 40, 255, 255, 255, 255, 245, 32, 178, 56, 255, 255, 255, 255, 246, 71,
    244, 40, 255, 255, 255, 255, 247, 37, 126, 56, 255, 255, 255, 255, 248, 21, 83, 24, 255, 255,
    255, 255, 249, 5, 96, 56, 255, 255, 255, 255, 249, 245, 53, 24, 255, 255, 255, 255, 250, 229,
    66, 56, 255, 255, 255, 255, 251, 222, 95, 168, 255, 255, 255, 255, 252, 206, 94, 184, 255,
    255, 255, 255, 253, 190, 65, 168, 255, 255, 255, 255, 254, 174, 64, 184, 255, 255, 255, 255,
    255, 158, 35, 168, 0, 0, 0, 0, 0, 142, 34, 184, 0, 0, 0, 0, 1, 126, 5, 168, 0, 0, 0, 0, 2,
    110, 4, 184, 0, 0, 0, 0, 3, 93, 231, 168, 0, 0, 0, 0, 4, 77, 230, 184, 0, 0, 0, 0, 5, 71, 4,
    40, 0, 0, 0, 0, 6, 55, 3, 56, 0, 0, 0, 0, 7, 38, 230, 40, 0, 0, 0, 0, 7, 131, 61, 56, 0, 0, 0,
    0, 9, 6, 200, 40, 0, 0, 0, 0, 9, 246, 199, 56, 0, 0, 0, 0, 10, 230, 170, 40, 0, 0, 0, 0, 11,
    214, 169, 56, 0, 0, 0, 0, 12, 198, 140, 40, 0, 0, 0, 0, 17, 155, 57, 56, 0, 0, 0, 0, 18, 111,
    108, 168, 1, 3, 2, 3, 2, 3, 1, 4, 1, 4, 1, 4, 1, 4, 1, 4, 1, 4, 1, 4, 1, 4, 1, 4, 1, 4, 1, 4,
    1, 4, 1, 4, 1, 4, 1, 4, 1, 4, 1, 4, 1, 4, 1, 4, 1, 4, 1, 4, 1, 4, 1, 4, 1, 4, 1, 4, 1, 4, 1,
    4, 1, 4, 1, 4, 1, 4, 1, 4, 1, 4, 1, 0, 0, 106, 114, 0, 0, 0, 0, 112, 128, 0, 4, 0, 0, 140,
    160, 1, 8, 0, 0, 126, 144, 0, 12, 0, 0, 126, 144, 1, 16, 76, 77, 84, 0, 67, 83, 84, 0, 43, 49,
    48, 0, 43, 48, 57, 0, 67, 68, 84, 0, 10, 67, 83, 84, 45, 56, 10,
];

/// `Asia/Magadan`.
#[verifier::opaque]
pub const ASIA_MAGADAN: [u8; 751] = [
    84, 90, 105, 102, 50, 0, 0, 0, 0, 0, 0, 0, 0, 0, 0, 0, 0, 0, 0, 0, 0, 0, 0, 0, 0, 0, 0, 0, 0,
    0, 0, 0, 0, 0, 0, 0, 0, 0, 0, 1, 0, 0, 0, 1, 0, 0, 0, 0, 0, 0, 0, 84, 90, 105, 102, 50, 0, 0,
    0, 0, 0, 0, 0, 0, 0, 0, 0, 0, 0, 0, 0, 0, 0, 0, 0, 0, 0, 0, 0, 0, 0, 0, 0, 0, 0, 0, 66, 0, 0,
    0, 6, 0, 0, 0, 16, 255, 255, 255, 255, 170, 25, 54, 160, 255, 255, 255, 255, 181, 163, 168,
    224, 0, 0, 0, 0, 21, 39, 55, 80, 0, 0, 0, 0, 22, 24, 107, 192, 0, 0, 0, 0, 23, 8, 106, 208, 0,
    0, 0, 0, 23, 249, 159, 64, 0, 0, 0, 0, 24, 233, 158, 80, 0, 0, 0, 0, 25, 218, 210, 192, 0, 0,
    0, 0, 26, 204, 35, 80, 0, 0, 0, 0, 27, 188, 48, 112, 0, 0, 0, 0, 28, 172, 33, 112, 0, 0, 0, 0,
    29, 156, 18, 112, 0, 0, 0, 0, 30, 140, 3, 112, 0, 0, 0, 0, 31, 123, 244, 112, 0, 0, 0, 0, 32,
    107, 229, 112, 0, 0, 0, 0, 33, 91, 214, 112, 0, 0, 0, 0, 34, 75, 199, 112, 0, 0, 0, 0, 35, 59,
    184, 112, 0, 0, 0, 0, 36, 43, 169, 112, 0, 0, 0, 0, 37, 27, 154, 112, 0, 0, 0, 0, 38, 11, 139,
    112, 0, 0, 0, 0, 39, 4, 182, 240, 0, 0, 0, 0, 39, 244, 167, 240, 0, 0, 0, 0, 40, 228, 167, 0,
    0, 0, 0, 0, 41, 120, 79, 0, 0, 0, 0, 0, 41, 212, 137, 240, 0, 0, 0, 0, 42, 196, 122, 240, 0,
    0, 0, 0, 43, 180, 107, 240, 0, 0, 0, 0, 44, 164, 92, 240, 0, 0, 0, 0, 45, 148, 77, 240, 0, 0,
    0, 0, 46, 132, 62, 240, 0, 0, 0, 0, 47, 116, 47, 240, 0, 0, 0, 0, 48, 100, 32, 240, 0, 0, 0,
    0, 49, 93, 76, 112, 0, 0, 0, 0, 50, 114, 39, 112, 0, 0, 0, 0, 51, 61, 46, 112, 0, 0, 0, 0, 52,
    82, 9, 112, 0, 0, 0, 0, 53, 29, 16, 112, 0, 0, 0, 0, 54, 49, 235, 112, 0, 0, 0, 0, 54, 252,
    242, 112, 0, 0, 0, 0, 56, 27, 7, 240, 0, 0, 0, 0, 56, 220, 212, 112, 0, 0, 0, 0, 57, 250, 233,
    240, 0, 0, 0, 0, 58, 188, 182, 112, 0, 0, 0, 0, 59, 218, 203, 240, 0, 0, 0, 0, 60, 165, 210,
    240, 0, 0, 0, 0, 61, 186, 173, 240, 0, 0, 0, 0, 62, 133, 180, 240, 0, 0, 0, 0, 63, 154, 143,
    240, 0, 0, 0, 0, 64, 101, 150, 240, 0, 0, 0, 0, 65, 131, 172, 112, 0, 0, 0, 0, 66, 69, 120,
    240, 0, 0, 0, 0, 67, 99, 142, 112, 0, 0, 0, 0, 68, 37, 90, 240, 0, 0, 0, 0, 69, 67, 112, 112,
    0, 0, 0, 0, 70, 5, 60, 240, 0, 0, 0, 0, 71, 35, 82, 112, 0, 0, 0, 0, 71, 238, 89, 112, 0, 0,
    0, 0, 73, 3, 52, 112, 0, 0, 0, 0, 73, 206, 59, 112, 0, 0, 0, 0, 74, 227, 22, 112, 0, 0, 0, 0,
    75, 174, 29, 112, 0, 0, 0, 0, 76, 204, 50, 240, 0, 0, 0, 0, 77, 141, 255, 112, 0, 0, 0, 0, 84,
    75, 172, 224, 0, 0, 0, 0, 87, 27, 156, 0, 1, 3, 2, 3, 2, 3, 2, 3, 2, 3, 2, 3, 2, 3, 2, 3, 2,
    3, 2, 3, 2, 3, 4, 1, 3, 2, 3, 2, 3, 2, 3, 2, 3, 2, 3, 2, 3, 2, 3, 2, 3, 2, 3, 2, 3, 2, 3, 2,
    3, 2, 3, 2, 3, 2, 3, 2, 3, 2, 3, 2, 3, 2, 3, 5, 1, 3, 0, 0, 141, 96, 0, 0, 0, 0, 140, 160, 0,
    4, 0, 0, 168, 192, 1, 8, 0, 0, 154, 176, 0, 12, 0, 0, 154, 176, 1, 12, 0, 0, 168, 192, 0, 8,
    76, 77, 84, 0, 43, 49, 48, 0, 43, 49, 50, 0, 43, 49, 49, 0, 10, 60, 43, 49, 49, 62, 45, 49,
    49, 10,
];

/// `Asia/Makassar`.
#[verifier::opaque]
pub const ASIA_MAKASSAR: [u8; 190] = [
    84, 90, 105, 102, 50, 0, 0, 0, 0, 0, 0, 0, 0, 0, 0, 0, 0, 0, 0, 0, 0, 0, 0, 0, 0, 0, 0, 0, 0,
    0, 0, 0, 0, 0, 0, 0, 0, 0, 0, 1, 0, 0, 0, 1, 0, 0, 0, 0, 0, 0, 0, 84, 90, 105, 102, 50, 0, 0,
    0, 0, 0, 0, 0, 0, 0, 0, 0, 0, 0, 0, 0, 0, 0, 0, 0, 0, 0, 0, 0, 0, 0, 0, 0, 0, 0, 0, 4, 0, 0,
    0, 5, 0, 0, 0, 21, 255, 255, 255, 255, 161, 242, 93, 144, 255, 255, 255, 255, 186, 22, 213,
    144, 255, 255, 255, 255, 203, 136, 29, 128, 255, 255, 255, 255, 210, 86, 238, 112, 1, 2, 3, 4,
    0, 0, 111, 240, 0, 0, 0, 0, 111, 240, 0, 4, 0, 0, 112, 128, 0, 8, 0, 0, 126, 144, 0, 12, 0, 0,
    112, 128, 0, 16, 76, 77, 84, 0, 77, 77, 84, 0, 43, 48, 56, 0, 43, 48, 57, 0, 87, 73, 84, 65,
    0, 10, 87, 73, 84, 65, 45, 56, 10,
];

/// `Asia/Manila`.
#[verifier::opaque]
pub const ASIA_MANILA: [u8; 274] = [
    84, 90, 105, 102, 50, 0, 0, 0, 0, 0, 0, 0, 0, 0, 0, 0, 0, 0, 0, 0, 0, 0, 0, 0, 0, 0, 0, 0, 0,
    0, 0, 0, 0, 0, 0, 0, 0, 0, 0, 1, 0, 0, 0, 1, 0, 0, 0, 0, 0, 0, 0, 84, 90, 105, 102, 50, 0, 0,
    0, 0, 0, 0, 0, 0, 0, 0, 0, 0, 0, 0, 0, 0, 0, 0, 0, 0, 0, 0, 0, 0, 0, 0, 0, 0, 0, 0, 14, 0, 0,
    0, 5, 0, 0, 0, 16, 255, 255, 255, 255, 20, 225, 220, 24, 255, 255, 255, 255, 123, 187, 122,
    64, 255, 255, 255, 255, 193, 156, 244, 128, 255, 255, 255, 255, 194, 1, 24, 112, 255, 255,
    255, 255, 203, 63, 155, 0, 255, 255, 255, 255, 203, 140, 3, 240, 255, 255, 255, 255, 209, 75,
    77, 240, 255, 255, 255, 255, 210, 177, 229, 240, 255, 255, 255, 255, 226, 108, 57, 0, 255,
    255, 255, 255, 226, 179, 91, 240, 0, 0, 0, 0, 13, 155, 252, 0, 0, 0, 0, 0, 14, 134, 152, 240,
    0, 0, 0, 0, 38, 86, 191, 0, 0, 0, 0, 0, 38, 177, 168, 112, 1, 3, 2, 3, 2, 4, 2, 3, 2, 3, 2, 3,
    2, 3, 255, 255, 31, 232, 0, 0, 0, 0, 113, 104, 0, 0, 0, 0, 126, 144, 1, 4, 0, 0, 112, 128, 0,
    8, 0, 0, 126, 144, 0, 12, 76, 77, 84, 0, 80, 68, 84, 0, 80, 83, 84, 0, 74, 83, 84, 0, 10, 80,
    83, 84, 45, 56, 10,
];

/// `Asia/Nicosia`.
#[verifier::opaque]
pub const ASIA_NICOSIA: [u8; 597] = [
    84, 90, 105, 102, 50, 0, 0, 0, 0, 0, 0, 0, 0, 0, 0, 0, 0, 0, 0, 0, 0, 0, 0, 0, 0, 0, 0, 0, 0,
    0, 0, 0, 0, 0, 0, 0, 0, 0, 0, 1, 0, 0, 0, 1, 0, 0, 0, 0, 0, 0, 0, 84, 90, 105, 102, 50, 0, 0,
    0, 0, 0, 0, 0, 0, 0, 0, 0, 0, 0, 0, 0, 0, 0, 0, 0, 0, 0, 0, 0, 0, 0, 0, 0, 0, 0, 0, 49, 0, 0,
    0, 3, 0, 0, 0, 13, 255, 255, 255, 255, 165, 119, 30, 184, 0, 0, 0, 0, 9, 237, 175, 224, 0, 0,
    0, 0, 10, 221, 146, 208, 0, 0, 0, 0, 11, 250, 100, 224, 0, 0, 0, 0, 12, 190, 198, 80, 0, 0, 0,
    0, 13, 164, 57, 96, 0, 0, 0, 0, 14, 138, 225, 208, 0, 0, 0, 0, 15, 132, 27, 96, 0, 0, 0, 0,
    16, 117, 79, 208, 0, 0, 0, 0, 17, 99, 253, 96, 0, 0, 0, 0, 18, 83, 224, 80, 0, 0, 0, 0, 19,
    77, 25, 224, 0, 0, 0, 0, 20, 51, 194, 80, 0, 0, 0, 0, 21, 35, 193, 96, 0, 0, 0, 0, 22, 19,
    164, 80, 0, 0, 0, 0, 23, 3, 163, 96, 0, 0, 0, 0, 23, 243, 134, 80, 0, 0, 0, 0, 24, 227, 133,
    96, 0, 0, 0, 0, 25, 211, 104, 80, 0, 0, 0, 0, 26, 195, 103, 96, 0, 0, 0, 0, 27, 188, 132, 208,
    0, 0, 0, 0, 28, 172, 131, 224, 0, 0, 0, 0, 29, 156, 102, 208, 0, 0, 0, 0, 30, 140, 101, 224,
    0, 0, 0, 0, 31, 124, 72, 208, 0, 0, 0, 0, 32, 108, 71, 224, 0, 0, 0, 0, 33, 92, 42, 208, 0, 0,
    0, 0, 34, 76, 41, 224, 0, 0, 0, 0, 35, 60, 12, 208, 0, 0, 0, 0, 36, 44, 11, 224, 0, 0, 0, 0,
    37, 27, 238, 208, 0, 0, 0, 0, 38, 11, 237, 224, 0, 0, 0, 0, 39, 5, 11, 80, 0, 0, 0, 0, 39,
    245, 10, 96, 0, 0, 0, 0, 40, 228, 237, 80, 0, 0, 0, 0, 41, 212, 236, 96, 0, 0, 0, 0, 42, 196,
    207, 80, 0, 0, 0, 0, 43, 180, 206, 96, 0, 0, 0, 0, 44, 164, 177, 80, 0, 0, 0, 0, 45, 148, 176,
    96, 0, 0, 0, 0, 46, 132, 147, 80, 0, 0, 0, 0, 47, 116, 146, 96, 0, 0, 0, 0, 48, 100, 117, 80,
    0, 0, 0, 0, 49, 93, 174, 224, 0, 0, 0, 0, 50, 77, 145, 208, 0, 0, 0, 0, 51, 61, 144, 224, 0,
    0, 0, 0, 52, 45, 115, 208, 0, 0, 0, 0, 53, 29, 114, 224, 0, 0, 0, 0, 53, 235, 14, 208, 2, 1,
    2, 1, 2, 1, 2, 1, 2, 1, 2, 1, 2, 1, 2, 1, 2, 1, 2, 1, 2, 1, 2, 1, 2, 1, 2, 1, 2, 1, 2, 1, 2,
    1, 2, 1, 2, 1, 2, 1, 2, 1, 2, 1, 2, 1, 2, 1, 1, 0, 0, 31, 72, 0, 0, 0, 0, 42, 48, 1, 4, 0, 0,
    28, 32, 0, 9, 76, 77, 84, 0, 69, 69, 83, 84, 0, 69, 69, 84, 0, 10, 69, 69, 84, 45, 50, 69, 69,
    83, 84, 44, 77, 51, 46, 53, 46, 48, 47, 51, 44, 77, 49, 48, 46, 53, 46, 48, 47, 52, 10,
];

/// `Asia/Novokuznetsk`.
#[verifier::opaque]
pub const ASIA_NOVOKUZNETSK: [u8; 726] = [
    84, 90, 105, 102, 50, 0, 0, 0, 0, 0, 0, 0, 0, 0, 0, 0, 0, 0, 0, 0, 0, 0, 0, 0, 0, 0, 0, 0, 0,
    0, 0, 0, 0, 0, 0, 0, 0, 0, 0, 1, 0, 0, 0, 1, 0, 0, 0, 0, 0, 0, 0, 84, 90, 105, 102, 50, 0, 0,
    0, 0, 0, 0, 0, 0, 0, 0, 0, 0, 0, 0, 0, 0, 0, 0, 0, 0, 0, 0, 0, 0, 0, 0, 0, 0, 0, 0, 64, 0, 0,
    0, 5, 0, 0, 0, 16, 255, 255, 255, 255, 170, 24, 32, 192, 255, 255, 255, 255, 181, 163, 225,
    32, 0, 0, 0, 0, 21, 39, 111, 144, 0, 0, 0, 0, 22, 24, 164, 0, 0, 0, 0, 0, 23, 8, 163, 16, 0,
    0, 0, 0, 23, 249, 215, 128, 0, 0, 0, 0, 24, 233, 214, 144, 0, 0, 0, 0, 25, 219, 11, 0, 0, 0,
    0, 0, 26, 204, 91, 144, 0, 0, 0, 0, 27, 188, 104, 176, 0, 0, 0, 0, 28, 172, 89, 176, 0, 0, 0,
    0, 29, 156, 74, 176, 0, 0, 0, 0, 30, 140, 59, 176, 0, 0, 0, 0, 31, 124, 44, 176, 0, 0, 0, 0,
    32, 108, 29, 176, 0, 0, 0, 0, 33, 92, 14, 176, 0, 0, 0, 0, 34, 75, 255, 176, 0, 0, 0, 0, 35,
    59, 240, 176, 0, 0, 0, 0, 36, 43, 225, 176, 0, 0, 0, 0, 37, 27, 210, 176, 0, 0, 0, 0, 38, 11,
    195, 176, 0, 0, 0, 0, 39, 4, 239, 48, 0, 0, 0, 0, 39, 244, 224, 48, 0, 0, 0, 0, 40, 228, 223,
    64, 0, 0, 0, 0, 41, 120, 135, 64, 0, 0, 0, 0, 41, 212, 194, 48, 0, 0, 0, 0, 42, 196, 179, 48,
    0, 0, 0, 0, 43, 180, 164, 48, 0, 0, 0, 0, 44, 164, 149, 48, 0, 0, 0, 0, 45, 148, 134, 48, 0,
    0, 0, 0, 46, 132, 119, 48, 0, 0, 0, 0, 47, 116, 104, 48, 0, 0, 0, 0, 48, 100, 89, 48, 0, 0, 0,
    0, 49, 93, 132, 176, 0, 0, 0, 0, 50, 114, 95, 176, 0, 0, 0, 0, 51, 61, 102, 176, 0, 0, 0, 0,
    52, 82, 65, 176, 0, 0, 0, 0, 53, 29, 72, 176, 0, 0, 0, 0, 54, 50, 35, 176, 0, 0, 0, 0, 54,
    253, 42, 176, 0, 0, 0, 0, 56, 27, 64, 48, 0, 0, 0, 0, 56, 221, 12, 176, 0, 0, 0, 0, 57, 251,
    34, 48, 0, 0, 0, 0, 58, 188, 238, 176, 0, 0, 0, 0, 59, 219, 4, 48, 0, 0, 0, 0, 60, 166, 11,
    48, 0, 0, 0, 0, 61, 186, 230, 48, 0, 0, 0, 0, 62, 133, 237, 48, 0, 0, 0, 0, 63, 154, 200, 48,
    0, 0, 0, 0, 64, 101, 207, 48, 0, 0, 0, 0, 65, 131, 228, 176, 0, 0, 0, 0, 66, 69, 177, 48, 0,
    0, 0, 0, 67, 99, 198, 176, 0, 0, 0, 0, 68, 37, 147, 48, 0, 0, 0, 0, 69, 67, 168, 176, 0, 0, 0,
    0, 70, 5, 117, 48, 0, 0, 0, 0, 71, 35, 138, 176, 0, 0, 0, 0, 71, 238, 145, 176, 0, 0, 0, 0,
    73, 3, 108, 176, 0, 0, 0, 0, 73, 206, 115, 176, 0, 0, 0, 0, 74, 227, 78, 176, 0, 0, 0, 0, 75,
    174, 85, 176, 0, 0, 0, 0, 76, 204, 121, 64, 0, 0, 0, 0, 77, 142, 69, 192, 1, 3, 2, 3, 2, 3, 2,
    3, 2, 3, 2, 3, 2, 3, 2, 3, 2, 3, 2, 3, 2, 3, 4, 1, 3, 2, 3, 2, 3, 2, 3, 2, 3, 2, 3, 2, 3, 2,
    3, 2, 3, 2, 3, 2, 3, 2, 3, 2, 3, 2, 3, 2, 3, 2, 3, 2, 3, 2, 3, 2, 3, 4, 1, 3, 0, 0, 81, 192,
    0, 0, 0, 0, 84, 96, 0, 4, 0, 0, 112, 128, 1, 8, 0, 0, 98, 112, 0, 12, 0, 0, 98, 112, 1, 12,
    76, 77, 84, 0, 43, 48, 54, 0, 43, 48, 56, 0, 43, 48, 55, 0, 10, 60, 43, 48, 55, 62, 45, 55,
    10,
];

/// `Asia/Novosibirsk`.
#[verifier::opaque]
pub const ASIA_NOVOSIBIRSK: [u8; 753] = [
    84, 90, 105, 102, 50, 0, 0, 0, 0, 0, 0, 0, 0, 0, 0, 0, 0, 0, 0, 0, 0, 0, 0, 0, 0, 0, 0, 0, 0,
    0, 0, 0, 0, 0, 0, 0, 0, 0, 0, 1, 0, 0, 0, 1, 0, 0, 0, 0, 0, 0, 0, 84, 90, 105, 102, 50, 0, 0,
    0, 0, 0, 0, 0, 0, 0, 0, 0, 0, 0, 0, 0, 0, 0, 0, 0, 0, 0, 0, 0, 0, 0, 0, 0, 0, 0, 0, 67, 0, 0,
    0, 5, 0, 0, 0, 16, 255, 255, 255, 255, 161, 219, 25, 36, 255, 255, 255, 255, 181, 163, 225,
    32, 0, 0, 0, 0, 21, 39, 111, 144, 0, 0, 0, 0, 22, 24, 164, 0, 0, 0, 0, 0, 23, 8, 163, 16, 0,
    0, 0, 0, 23, 249, 215, 128, 0, 0, 0, 0, 24, 233, 214, 144, 0, 0, 0, 0, 25, 219, 11, 0, 0, 0,
    0, 0, 26, 204, 91, 144, 0, 0, 0, 0, 27, 188, 104, 176, 0, 0, 0, 0, 28, 172, 89, 176, 0, 0, 0,
    0, 29, 156, 74, 176, 0, 0, 0, 0, 30, 140, 59, 176, 0, 0, 0, 0, 31, 124, 44, 176, 0, 0, 0, 0,
    32, 108, 29, 176, 0, 0, 0, 0, 33, 92, 14, 176, 0, 0, 0, 0, 34, 75, 255, 176, 0, 0, 0, 0, 35,
    59, 240, 176, 0, 0, 0, 0, 36, 43, 225, 176, 0, 0, 0, 0, 37, 27, 210, 176, 0, 0, 0, 0, 38, 11,
    195, 176, 0, 0, 0, 0, 39, 4, 239, 48, 0, 0, 0, 0, 39, 244, 224, 48, 0, 0, 0, 0, 40, 228, 223,
    64, 0, 0, 0, 0, 41, 120, 135, 64, 0, 0, 0, 0, 41, 212, 194, 48, 0, 0, 0, 0, 42, 196, 179, 48,
    0, 0, 0, 0, 43, 180, 164, 48, 0, 0, 0, 0, 43, 254, 78, 0, 0, 0, 0, 0, 44, 164, 163, 64, 0, 0,
    0, 0, 45, 148, 148, 64, 0, 0, 0, 0, 46, 132, 133, 64, 0, 0, 0, 0, 47, 116, 118, 64, 0, 0, 0,
    0, 48, 100, 103, 64, 0, 0, 0, 0, 49, 93, 146, 192, 0, 0, 0, 0, 50, 114, 109, 192, 0, 0, 0, 0,
    51, 61, 116, 192, 0, 0, 0, 0, 52, 82, 79, 192, 0, 0, 0, 0, 53, 29, 86, 192, 0, 0, 0, 0, 54,
    50, 49, 192, 0, 0, 0, 0, 54, 253, 56, 192, 0, 0, 0, 0, 56, 27, 78, 64, 0, 0, 0, 0, 56, 221,
    26, 192, 0, 0, 0, 0, 57, 251, 48, 64, 0, 0, 0, 0, 58, 188, 252, 192, 0, 0, 0, 0, 59, 219, 18,
    64, 0, 0, 0, 0, 60, 166, 25, 64, 0, 0, 0, 0, 61, 186, 244, 64, 0, 0, 0, 0, 62, 133, 251, 64,
    0, 0, 0, 0, 63, 154, 214, 64, 0, 0, 0, 0, 64, 101, 221, 64, 0, 0, 0, 0, 65, 131, 242, 192, 0,
    0, 0, 0, 66, 69, 191, 64, 0, 0, 0, 0, 67, 99, 212, 192, 0, 0, 0, 0, 68, 37, 161, 64, 0, 0, 0,
    0, 69, 67, 182, 192, 0, 0, 0, 0, 70, 5, 131, 64, 0, 0, 0, 0, 71, 35, 152, 192, 0, 0, 0, 0, 71,
    238, 159, 192, 0, 0, 0, 0, 73, 3, 122, 192, 0, 0, 0, 0, 73, 206, 129, 192, 0, 0, 0, 0, 74,
    227, 92, 192, 0, 0, 0, 0, 75, 174, 99, 192, 0, 0, 0, 0, 76, 204, 121, 64, 0, 0, 0, 0, 77, 142,
    69, 192, 0, 0, 0, 0, 84, 75, 243, 48, 0, 0, 0, 0, 87, 147, 204, 192, 1, 3, 2, 3, 2, 3, 2, 3,
    2, 3, 2, 3, 2, 3, 2, 3, 2, 3, 2, 3, 2, 3, 4, 1, 3, 2, 3, 2, 4, 1, 4, 1, 4, 1, 4, 1, 4, 1, 4,
    1, 4, 1, 4, 1, 4, 1, 4, 1, 4, 1, 4, 1, 4, 1, 4, 1, 4, 1, 4, 1, 4, 1, 4, 1, 3, 1, 3, 0, 0, 77,
    188, 0, 0, 0, 0, 84, 96, 0, 4, 0, 0, 112, 128, 1, 8, 0, 0, 98, 112, 0, 12, 0, 0, 98, 112, 1,
    12, 76, 77, 84, 0, 43, 48, 54, 0, 43, 48, 56, 0, 43, 48, 55, 0, 10, 60, 43, 48, 55, 62, 45,
    55, 10,
];

/// `Asia/Omsk`.
#[verifier::opaque]
pub const ASIA_OMSK: [u8; 741] = [
    84, 90, 105, 102, 50, 0, 0, 0, 0, 0, 0, 0, 0, 0, 0, 0, 0, 0, 0, 0, 0, 0, 0, 0, 0, 0, 0, 0, 0,
    0, 0, 0, 0, 0, 0, 0, 0, 0, 0, 1, 0, 0, 0, 1, 0, 0, 0, 0, 0, 0, 0, 84, 90, 105, 102, 50, 0, 0,
    0, 0, 0, 0, 0, 0, 0, 0, 0, 0, 0, 0, 0, 0, 0, 0, 0, 0, 0, 0, 0, 0, 0, 0, 0, 0, 0, 0, 65, 0, 0,
    0, 6, 0, 0, 0, 16, 255, 255, 255, 255, 161, 179, 64, 182, 255, 255, 255, 255, 181, 163, 239,
    48, 0, 0, 0, 0, 21, 39, 125, 160, 0, 0, 0, 0, 22, 24, 178, 16, 0, 0, 0, 0, 23, 8, 177, 32, 0,
    0, 0, 0, 23, 249, 229, 144, 0, 0, 0, 0, 24, 233, 228, 160, 0, 0, 0, 0, 25, 219, 25, 16, 0, 0,
    0, 0, 26, 204, 105, 160, 0, 0, 0, 0, 27, 188, 118, 192, 0, 0, 0, 0, 28, 172, 103, 192, 0, 0,
    0, 0, 29, 156, 88, 192, 0, 0, 0, 0, 30, 140, 73, 192, 0, 0, 0, 0, 31, 124, 58, 192, 0, 0, 0,
    0, 32, 108, 43, 192, 0, 0, 0, 0, 33, 92, 28, 192, 0, 0, 0, 0, 34, 76, 13, 192, 0, 0, 0, 0, 35,
    59, 254, 192, 0, 0, 0, 0, 36, 43, 239, 192, 0, 0, 0, 0, 37, 27, 224, 192, 0, 0, 0, 0, 38, 11,
    209, 192, 0, 0, 0, 0, 39, 4, 253, 64, 0, 0, 0, 0, 39, 244, 238, 64, 0, 0, 0, 0, 40, 228, 237,
    80, 0, 0, 0, 0, 41, 120, 149, 80, 0, 0, 0, 0, 41, 212, 208, 64, 0, 0, 0, 0, 42, 196, 193, 64,
    0, 0, 0, 0, 43, 180, 178, 64, 0, 0, 0, 0, 44, 164, 163, 64, 0, 0, 0, 0, 45, 148, 148, 64, 0,
    0, 0, 0, 46, 132, 133, 64, 0, 0, 0, 0, 47, 116, 118, 64, 0, 0, 0, 0, 48, 100, 103, 64, 0, 0,
    0, 0, 49, 93, 146, 192, 0, 0, 0, 0, 50, 114, 109, 192, 0, 0, 0, 0, 51, 61, 116, 192, 0, 0, 0,
    0, 52, 82, 79, 192, 0, 0, 0, 0, 53, 29, 86, 192, 0, 0, 0, 0, 54, 50, 49, 192, 0, 0, 0, 0, 54,
    253, 56, 192, 0, 0, 0, 0, 56, 27, 78, 64, 0, 0, 0, 0, 56, 221, 26, 192, 0, 0, 0, 0, 57, 251,
    48, 64, 0, 0, 0, 0, 58, 188, 252, 192, 0, 0, 0, 0, 59, 219, 18, 64, 0, 0, 0, 0, 60, 166, 25,
    64, 0, 0, 0, 0, 61, 186, 244, 64, 0, 0, 0, 0, 62, 133, 251, 64, 0, 0, 0, 0, 63, 154, 214, 64,
    0, 0, 0, 0, 64, 101, 221, 64, 0, 0, 0, 0, 65, 131, 242, 192, 0, 0, 0, 0, 66, 69, 191, 64, 0,
    0, 0, 0, 67, 99, 212, 192, 0, 0, 0, 0, 68, 37, 161, 64, 0, 0, 0, 0, 69, 67, 182, 192, 0, 0, 0,
    0, 70, 5, 131, 64, 0, 0, 0, 0, 71, 35, 152, 192, 0, 0, 0, 0, 71, 238, 159, 192, 0, 0, 0, 0,
    73, 3, 122, 192, 0, 0, 0, 0, 73, 206, 129, 192, 0, 0, 0, 0, 74, 227, 92, 192, 0, 0, 0, 0, 75,
    174, 99, 192, 0, 0, 0, 0, 76, 204, 121, 64, 0, 0, 0, 0, 77, 142, 69, 192, 0, 0, 0, 0, 84, 75,
    243, 48, 1, 3, 2, 3, 2, 3, 2, 3, 2, 3, 2, 3, 2, 3, 2, 3, 2, 3, 2, 3, 2, 3, 4, 1, 3, 2, 3, 2,
    3, 2, 3, 2, 3, 2, 3, 2, 3, 2, 3, 2, 3, 2, 3, 2, 3, 2, 3, 2, 3, 2, 3, 2, 3, 2, 3, 2, 3, 2, 3,
    2, 3, 2, 3, 5, 3, 0, 0, 68, 202, 0, 0, 0, 0, 70, 80, 0, 4, 0, 0, 98, 112, 1, 8, 0, 0, 84, 96,
    0, 12, 0, 0, 84, 96, 1, 12, 0, 0, 98, 112, 0, 8, 76, 77, 84, 0, 43, 48, 53, 0, 43, 48, 55, 0,
    43, 48, 54, 0, 10, 60, 43, 48, 54, 62, 45, 54, 10,
];

/// `Asia/Oral`.
#[verifier::opaque]
pub const ASIA_ORAL: [u8; 625] = [
    84, 90, 105, 102, 50, 0, 0, 0, 0, 0, 0, 0, 0, 0, 0, 0, 0, 0, 0, 0, 0, 0, 0, 0, 0, 0, 0, 0, 0,
    0, 0, 0, 0, 0, 0, 0, 0, 0, 0, 1, 0, 0, 0, 1, 0, 0, 0, 0, 0, 0, 0, 84, 90, 105, 102, 50, 0, 0,
    0, 0, 0, 0, 0, 0, 0, 0, 0, 0, 0, 0, 0, 0, 0, 0, 0, 0, 0, 0, 0, 0, 0, 0, 0, 0, 0, 0, 51, 0, 0,
    0, 7, 0, 0, 0, 20, 255, 255, 255, 255, 170, 25, 147, 220, 255, 255, 255, 255, 181, 164, 11,
    80, 0, 0, 0, 0, 21, 39, 139, 176, 0, 0, 0, 0, 22, 24, 192, 32, 0, 0, 0, 0, 23, 8, 177, 32, 0,
    0, 0, 0, 23, 249, 243, 160, 0, 0, 0, 0, 24, 233, 242, 176, 0, 0, 0, 0, 25, 219, 39, 32, 0, 0,
    0, 0, 26, 204, 119, 176, 0, 0, 0, 0, 27, 188, 132, 208, 0, 0, 0, 0, 28, 172, 117, 208, 0, 0,
    0, 0, 29, 156, 102, 208, 0, 0, 0, 0, 30, 140, 87, 208, 0, 0, 0, 0, 31, 124, 72, 208, 0, 0, 0,
    0, 32, 108, 57, 208, 0, 0, 0, 0, 33, 92, 42, 208, 0, 0, 0, 0, 34, 76, 27, 208, 0, 0, 0, 0, 35,
    60, 12, 208, 0, 0, 0, 0, 36, 43, 253, 208, 0, 0, 0, 0, 37, 27, 252, 224, 0, 0, 0, 0, 38, 11,
    237, 224, 0, 0, 0, 0, 39, 5, 25, 96, 0, 0, 0, 0, 39, 245, 10, 96, 0, 0, 0, 0, 40, 228, 251,
    96, 0, 0, 0, 0, 41, 120, 163, 96, 0, 0, 0, 0, 41, 212, 222, 80, 0, 0, 0, 0, 42, 196, 221, 96,
    0, 0, 0, 0, 43, 180, 206, 96, 0, 0, 0, 0, 44, 164, 191, 96, 0, 0, 0, 0, 45, 148, 176, 96, 0,
    0, 0, 0, 46, 132, 161, 96, 0, 0, 0, 0, 47, 116, 146, 96, 0, 0, 0, 0, 48, 100, 131, 96, 0, 0,
    0, 0, 49, 93, 174, 224, 0, 0, 0, 0, 50, 114, 137, 224, 0, 0, 0, 0, 51, 61, 144, 224, 0, 0, 0,
    0, 52, 82, 107, 224, 0, 0, 0, 0, 53, 29, 114, 224, 0, 0, 0, 0, 54, 50, 77, 224, 0, 0, 0, 0,
    54, 253, 84, 224, 0, 0, 0, 0, 56, 27, 106, 96, 0, 0, 0, 0, 56, 221, 54, 224, 0, 0, 0, 0, 57,
    251, 76, 96, 0, 0, 0, 0, 58, 189, 24, 224, 0, 0, 0, 0, 59, 219, 46, 96, 0, 0, 0, 0, 60, 166,
    53, 96, 0, 0, 0, 0, 61, 187, 16, 96, 0, 0, 0, 0, 62, 134, 23, 96, 0, 0, 0, 0, 63, 154, 242,
    96, 0, 0, 0, 0, 64, 101, 249, 96, 0, 0, 0, 0, 65, 132, 14, 224, 1, 2, 3, 4, 3, 2, 3, 2, 3, 2,
    3, 2, 3, 2, 3, 2, 3, 2, 5, 6, 5, 6, 5, 6, 2, 5, 6, 5, 6, 5, 6, 5, 6, 5, 6, 5, 6, 5, 6, 5, 6,
    5, 6, 5, 6, 5, 6, 5, 6, 5, 2, 0, 0, 48, 36, 0, 0, 0, 0, 42, 48, 0, 4, 0, 0, 70, 80, 0, 8, 0,
    0, 84, 96, 1, 12, 0, 0, 84, 96, 0, 12, 0, 0, 70, 80, 1, 8, 0, 0, 56, 64, 0, 16, 76, 77, 84, 0,
    43, 48, 51, 0, 43, 48, 53, 0, 43, 48, 54, 0, 43, 48, 52, 0, 10, 60, 43, 48, 53, 62, 45, 53,
    10,
];

/// `Asia/Pontianak`.
#[verifier::opaque]
pub const ASIA_PONTIANAK: [u8; 247] = [
    84, 90, 105, 102, 50, 0, 0, 0, 0, 0, 0, 0, 0, 0, 0, 0, 0, 0, 0, 0, 0, 0, 0, 0, 0, 0, 0, 0, 0,
    0, 0, 0, 0, 0, 0, 0, 0, 0, 0, 1, 0, 0, 0, 1, 0, 0, 0, 0, 0, 0, 0, 84, 90, 105, 102, 50, 0, 0,
    0, 0, 0, 0, 0, 0, 0, 0, 0, 0, 0, 0, 0, 0, 0, 0, 0, 0, 0, 0, 0, 0, 0, 0, 0, 0, 0, 0, 8, 0, 0,
    0, 7, 0, 0, 0, 31, 255, 255, 255, 255, 139, 255, 142, 0, 255, 255, 255, 255, 186, 22, 223, 0,
    255, 255, 255, 255, 203, 121, 164, 8, 255, 255, 255, 255, 210, 86, 238, 112, 255, 255, 255,
    255, 215, 60, 198, 8, 255, 255, 255, 255, 218, 255, 38, 0, 255, 255, 255, 255, 244, 181, 190,
    136, 0, 0, 0, 0, 33, 218, 116, 128, 1, 2, 3, 2, 4, 2, 5, 6, 0, 0, 102, 128, 0, 0, 0, 0, 102,
    128, 0, 4, 0, 0, 105, 120, 0, 8, 0, 0, 126, 144, 0, 14, 0, 0, 112, 128, 0, 18, 0, 0, 112, 128,
    0, 22, 0, 0, 98, 112, 0, 27, 76, 77, 84, 0, 80, 77, 84, 0, 43, 48, 55, 51, 48, 0, 43, 48, 57,
    0, 43, 48, 56, 0, 87, 73, 84, 65, 0, 87, 73, 66, 0, 10, 87, 73, 66, 45, 55, 10,
];

/// `Asia/Pyongyang`.
#[verifier::opaque]
pub const ASIA_PYONGYANG: [u8; 183] = [
    84, 90, 105, 102, 50, 0, 0, 0, 0, 0, 0, 0, 0, 0, 0, 0, 0, 0, 0, 0, 0, 0, 0, 0, 0, 0, 0, 0, 0,
    0, 0, 0, 0, 0, 0, 0, 0, 0, 0, 1, 0, 0, 0, 1, 0, 0, 0, 0, 0, 0, 0, 84, 90, 105, 102, 50, 0, 0,
    0, 0, 0, 0, 0, 0, 0, 0, 0, 0, 0, 0, 0, 0, 0, 0, 0, 0, 0, 0, 0, 0, 0, 0, 0, 0, 0, 0, 5, 0, 0,
    0, 4, 0, 0, 0, 12, 255, 255, 255, 255, 139, 215, 241, 156, 255, 255, 255, 255, 146, 230, 22,
    248, 255, 255, 255, 255, 210, 47, 97, 112, 0, 0, 0, 0, 85, 206, 2, 112, 0, 0, 0, 0, 90, 236,
    117, 112, 1, 2, 3, 1, 3, 0, 0, 117, 228, 0, 0, 0, 0, 119, 136, 0, 4, 0, 0, 126, 144, 0, 8, 0,
    0, 126, 144, 0, 4, 76, 77, 84, 0, 75, 83, 84, 0, 74, 83, 84, 0, 10, 75, 83, 84, 45, 57, 10,
];

/// `Asia/Qatar`.
#[verifier::opaque]
pub const ASIA_QATAR: [u8; 152] = [
    84, 90, 105, 102, 50, 0, 0, 0, 0, 0, 0, 0, 0, 0, 0, 0, 0, 0, 0, 0, 0, 0, 0, 0, 0, 0, 0, 0, 0,
    0, 0, 0, 0, 0, 0, 0, 0, 0, 0, 1, 0, 0, 0, 1, 0, 0, 0, 0, 0, 0, 0, 84, 90, 105, 102, 50, 0, 0,
    0, 0, 0, 0, 0, 0, 0, 0, 0, 0, 0, 0, 0, 0, 0, 0, 0, 0, 0, 0, 0, 0, 0, 0, 0, 0, 0, 0, 2, 0, 0,
    0, 3, 0, 0, 0, 12, 255, 255, 255, 255, 161, 242, 157, 48, 0, 0, 0, 0, 4, 138, 146, 192, 1, 2,
    0, 0, 48, 80, 0, 0, 0, 0, 56, 64, 0, 4, 0, 0, 42, 48, 0, 8, 76, 77, 84, 0, 43, 48, 52, 0, 43,
    48, 51, 0, 10, 60, 43, 48, 51, 62, 45, 51, 10,
];

/// `Asia/Qostanay`.
#[verifier::opaque]
pub const ASIA_QOSTANAY: [u8; 624] = [
    84, 90, 105, 102, 50, 0, 0, 0, 0, 0, 0, 0, 0, 0, 0, 0, 0, 0, 0, 0, 0, 0, 0, 0, 0, 0, 0, 0, 0,
    0, 0, 0, 0, 0, 0, 0, 0, 0, 0, 1, 0, 0, 0, 1, 0, 0, 0, 0, 0, 0, 0, 84, 90, 105, 102, 50, 0, 0,
    0, 0, 0, 0, 0, 0, 0, 0, 0, 0, 0, 0, 0, 0, 0, 0, 0, 0, 0, 0, 0, 0, 0, 0, 0, 0, 0, 0, 52, 0, 0,
    0, 6, 0, 0, 0, 16, 255, 255, 255, 255, 170, 25, 136, 92, 255, 255, 255, 255, 181, 163, 253,
    64, 0, 0, 0, 0, 21, 39, 139, 176, 0, 0, 0, 0, 22, 24, 192, 32, 0, 0, 0, 0, 23, 8, 177, 32, 0,
    0, 0, 0, 23, 249, 243, 160, 0, 0, 0, 0, 24, 233, 242, 176, 0, 0, 0, 0, 25, 219, 39, 32, 0, 0,
    0, 0, 26, 204, 119, 176, 0, 0, 0, 0, 27, 188, 132, 208, 0, 0, 0, 0, 28, 172, 117, 208, 0, 0,
    0, 0, 29, 156, 102, 208, 0, 0, 0, 0, 30, 140, 87, 208, 0, 0, 0, 0, 31, 124, 72, 208, 0, 0, 0,
    0, 32, 108, 57, 208, 0, 0, 0, 0, 33, 92, 42, 208, 0, 0, 0, 0, 34, 76, 27, 208, 0, 0, 0, 0, 35,
    60, 12, 208, 0, 0, 0, 0, 36, 43, 253, 208, 0, 0, 0, 0, 37, 27, 238, 208, 0, 0, 0, 0, 38, 11,
    223, 208, 0, 0, 0, 0, 39, 5, 11, 80, 0, 0, 0, 0, 39, 244, 252, 80, 0, 0, 0, 0, 40, 228, 251,
    96, 0, 0, 0, 0, 41, 120, 163, 96, 0, 0, 0, 0, 41, 212, 222, 80, 0, 0, 0, 0, 42, 196, 207, 80,
    0, 0, 0, 0, 43, 180, 192, 80, 0, 0, 0, 0, 44, 164, 177, 80, 0, 0, 0, 0, 45, 148, 162, 80, 0,
    0, 0, 0, 46, 132, 147, 80, 0, 0, 0, 0, 47, 116, 132, 80, 0, 0, 0, 0, 48, 100, 117, 80, 0, 0,
    0, 0, 49, 93, 160, 208, 0, 0, 0, 0, 50, 114, 123, 208, 0, 0, 0, 0, 51, 61, 130, 208, 0, 0, 0,
    0, 52, 82, 93, 208, 0, 0, 0, 0, 53, 29, 100, 208, 0, 0, 0, 0, 54, 50, 63, 208, 0, 0, 0, 0, 54,
    253, 70, 208, 0, 0, 0, 0, 56, 27, 92, 80, 0, 0, 0, 0, 56, 221, 40, 208, 0, 0, 0, 0, 57, 251,
    62, 80, 0, 0, 0, 0, 58, 189, 10, 208, 0, 0, 0, 0, 59, 219, 32, 80, 0, 0, 0, 0, 60, 166, 39,
    80, 0, 0, 0, 0, 61, 187, 2, 80, 0, 0, 0, 0, 62, 134, 9, 80, 0, 0, 0, 0, 63, 154, 228, 80, 0,
    0, 0, 0, 64, 101, 235, 80, 0, 0, 0, 0, 65, 132, 0, 208, 0, 0, 0, 0, 101, 224, 198, 32, 1, 2,
    3, 4, 3, 2, 3, 2, 3, 2, 3, 2, 3, 2, 3, 2, 3, 2, 3, 2, 3, 2, 5, 1, 2, 3, 2, 3, 2, 3, 2, 3, 2,
    3, 2, 3, 2, 3, 2, 3, 2, 3, 2, 3, 2, 3, 2, 3, 2, 3, 4, 2, 0, 0, 59, 164, 0, 0, 0, 0, 56, 64, 0,
    4, 0, 0, 70, 80, 0, 8, 0, 0, 84, 96, 1, 12, 0, 0, 84, 96, 0, 12, 0, 0, 70, 80, 1, 8, 76, 77,
    84, 0, 43, 48, 52, 0, 43, 48, 53, 0, 43, 48, 54, 0, 10, 60, 43, 48, 53, 62, 45, 53, 10,
];

/// `Asia/Qyzylorda`.
#[verifier::opaque]
pub const ASIA_QYZYLORDA: [u8; 624] = [
    84, 90, 105, 102, 50, 0, 0, 0, 0, 0, 0, 0, 0, 0, 0, 0, 0, 0, 0, 0, 0, 0, 0, 0, 0, 0, 0, 0, 0,
    0, 0, 0, 0, 0, 0, 0, 0, 0, 0, 1, 0, 0, 0, 1, 0, 0, 0, 0, 0, 0, 0, 84, 90, 105, 102, 50, 0, 0,
    0, 0, 0, 0, 0, 0, 0, 0, 0, 0, 0, 0, 0, 0, 0, 0, 0, 0, 0, 0, 0, 0, 0, 0, 0, 0, 0, 0, 52, 0, 0,
    0, 6, 0, 0, 0, 16, 255, 255, 255, 255, 170, 25, 134, 160, 255, 255, 255, 255, 181, 163, 253,
    64, 0, 0, 0, 0, 21, 39, 139, 176, 0, 0, 0, 0, 22, 24, 192, 32, 0, 0, 0, 0, 23, 8, 177, 32, 0,
    0, 0, 0, 23, 249, 243, 160, 0, 0, 0, 0, 24, 233, 242, 176, 0, 0, 0, 0, 25, 219, 39, 32, 0, 0,
    0, 0, 26, 204, 119, 176, 0, 0, 0, 0, 27, 188, 132, 208, 0, 0, 0, 0, 28, 172, 117, 208, 0, 0,
    0, 0, 29, 156, 102, 208, 0, 0, 0, 0, 30, 140, 87, 208, 0, 0, 0, 0, 31, 124, 72, 208, 0, 0, 0,
    0, 32, 108, 57, 208, 0, 0, 0, 0, 33, 92, 42, 208, 0, 0, 0, 0, 34, 76, 27, 208, 0, 0, 0, 0, 35,
    60, 12, 208, 0, 0, 0, 0, 36, 43, 253, 208, 0, 0, 0, 0, 37, 27, 238, 208, 0, 0, 0, 0, 38, 11,
    223, 208, 0, 0, 0, 0, 39, 5, 11, 80, 0, 0, 0, 0, 39, 244, 252, 80, 0, 0, 0, 0, 40, 228, 251,
    96, 0, 0, 0, 0, 41, 120, 149, 80, 0, 0, 0, 0, 41, 212, 208, 64, 0, 0, 0, 0, 42, 196, 207, 80,
    0, 0, 0, 0, 43, 180, 192, 80, 0, 0, 0, 0, 44, 164, 177, 80, 0, 0, 0, 0, 45, 148, 162, 80, 0,
    0, 0, 0, 46, 132, 147, 80, 0, 0, 0, 0, 47, 116, 132, 80, 0, 0, 0, 0, 48, 100, 117, 80, 0, 0,
    0, 0, 49, 93, 160, 208, 0, 0, 0, 0, 50, 114, 123, 208, 0, 0, 0, 0, 51, 61, 130, 208, 0, 0, 0,
    0, 52, 82, 93, 208, 0, 0, 0, 0, 53, 29, 100, 208, 0, 0, 0, 0, 54, 50, 63, 208, 0, 0, 0, 0, 54,
    253, 70, 208, 0, 0, 0, 0, 56, 27, 92, 80, 0, 0, 0, 0, 56, 221, 40, 208, 0, 0, 0, 0, 57, 251,
    62, 80, 0, 0, 0, 0, 58, 189, 10, 208, 0, 0, 0, 0, 59, 219, 32, 80, 0, 0, 0, 0, 60, 166, 39,
    80, 0, 0, 0, 0, 61, 187, 2, 80, 0, 0, 0, 0, 62, 134, 9, 80, 0, 0, 0, 0, 63, 154, 228, 80, 0,
    0, 0, 0, 64, 101, 235, 80, 0, 0, 0, 0, 65, 132, 0, 208, 0, 0, 0, 0, 92, 27, 216, 160, 1, 2, 3,
    4, 3, 2, 3, 2, 3, 2, 3, 2, 3, 2, 3, 2, 3, 2, 3, 2, 3, 2, 5, 2, 4, 3, 2, 3, 2, 3, 2, 3, 2, 3,
    2, 3, 2, 3, 2, 3, 2, 3, 2, 3, 2, 3, 2, 3, 2, 3, 4, 2, 0, 0, 61, 96, 0, 0, 0, 0, 56, 64, 0, 4,
    0, 0, 70, 80, 0, 8, 0, 0, 84, 96, 1, 12, 0, 0, 84, 96, 0, 12, 0, 0, 70, 80, 1, 8, 76, 77, 84,
    0, 43, 48, 52, 0, 43, 48, 53, 0, 43, 48, 54, 0, 10, 60, 43, 48, 53, 62, 45, 53, 10,
];

/// `Asia/Riyadh`.
#[verifier::opaque]
pub const ASIA_RIYADH: [u8; 133] = [
    84, 90, 105, 102, 50, 0, 0, 0, 0, 0, 0, 0, 0, 0, 0, 0, 0, 0, 0, 0, 0, 0, 0, 0, 0, 0, 0, 0, 0,
    0, 0, 0, 0, 0, 0, 0, 0, 0, 0, 1, 0, 0, 0, 1, 0, 0, 0, 0, 0, 0, 0, 84, 90, 105, 102, 50, 0, 0,
    0, 0, 0, 0, 0, 0, 0, 0, 0, 0, 0, 0, 0, 0, 0, 0, 0, 0, 0, 0, 0, 0, 0, 0, 0, 0, 0, 0, 1, 0, 0,
    0, 2, 0, 0, 0, 8, 255, 255, 255, 255, 213, 27, 54, 180, 1, 0, 0, 43, 204, 0, 0, 0, 0, 42, 48,
    0, 4, 76, 77, 84, 0, 43, 48, 51, 0, 10, 60, 43, 48, 51, 62, 45, 51, 10,
];

/// `Asia/Sakhalin`.
#[verifier::opaque]
pub const ASIA_SAKHALIN: [u8; 755] = [
    84, 90, 105, 102, 50, 0, 0, 0, 0, 0, 0, 0, 0, 0, 0, 0, 0, 0, 0, 0, 0, 0, 0, 0, 0, 0, 0, 0, 0,
    0, 0, 0, 0, 0, 0, 0, 0, 0, 0, 1, 0, 0, 0, 1, 0, 0, 0, 0, 0, 0, 0, 84, 90, 105, 102, 50, 0, 0,
    0, 0, 0, 0, 0, 0, 0, 0, 0, 0, 0, 0, 0, 0, 0, 0, 0, 0, 0, 0, 0, 0, 0, 0, 0, 0, 0, 0, 66, 0, 0,
    0, 6, 0, 0, 0, 20, 255, 255, 255, 255, 134, 240, 205, 184, 255, 255, 255, 255, 210, 48, 178,
    240, 0, 0, 0, 0, 21, 39, 55, 80, 0, 0, 0, 0, 22, 24, 107, 192, 0, 0, 0, 0, 23, 8, 106, 208, 0,
    0, 0, 0, 23, 249, 159, 64, 0, 0, 0, 0, 24, 233, 158, 80, 0, 0, 0, 0, 25, 218, 210, 192, 0, 0,
    0, 0, 26, 204, 35, 80, 0, 0, 0, 0, 27, 188, 48, 112, 0, 0, 0, 0, 28, 172, 33, 112, 0, 0, 0, 0,
    29, 156, 18, 112, 0, 0, 0, 0, 30, 140, 3, 112, 0, 0, 0, 0, 31, 123, 244, 112, 0, 0, 0, 0, 32,
    107, 229, 112, 0, 0, 0, 0, 33, 91, 214, 112, 0, 0, 0, 0, 34, 75, 199, 112, 0, 0, 0, 0, 35, 59,
    184, 112, 0, 0, 0, 0, 36, 43, 169, 112, 0, 0, 0, 0, 37, 27, 154, 112, 0, 0, 0, 0, 38, 11, 139,
    112, 0, 0, 0, 0, 39, 4, 182, 240, 0, 0, 0, 0, 39, 244, 167, 240, 0, 0, 0, 0, 40, 228, 167, 0,
    0, 0, 0, 0, 41, 120, 79, 0, 0, 0, 0, 0, 41, 212, 137, 240, 0, 0, 0, 0, 42, 196, 122, 240, 0,
    0, 0, 0, 43, 180, 107, 240, 0, 0, 0, 0, 44, 164, 92, 240, 0, 0, 0, 0, 45, 148, 77, 240, 0, 0,
    0, 0, 46, 132, 62, 240, 0, 0, 0, 0, 47, 116, 47, 240, 0, 0, 0, 0, 48, 100, 32, 240, 0, 0, 0,
    0, 49, 93, 76, 112, 0, 0, 0, 0, 50, 114, 39, 112, 0, 0, 0, 0, 51, 61, 46, 112, 0, 0, 0, 0, 52,
    82, 23, 128, 0, 0, 0, 0, 53, 29, 30, 128, 0, 0, 0, 0, 54, 49, 249, 128, 0, 0, 0, 0, 54, 253,
    0, 128, 0, 0, 0, 0, 56, 27, 22, 0, 0, 0, 0, 0, 56, 220, 226, 128, 0, 0, 0, 0, 57, 250, 248, 0,
    0, 0, 0, 0, 58, 188, 196, 128, 0, 0, 0, 0, 59, 218, 218, 0, 0, 0, 0, 0, 60, 165, 225, 0, 0, 0,
    0, 0, 61, 186, 188, 0, 0, 0, 0, 0, 62, 133, 195, 0, 0, 0, 0, 0, 63, 154, 158, 0, 0, 0, 0, 0,
    64, 101, 165, 0, 0, 0, 0, 0, 65, 131, 186, 128, 0, 0, 0, 0, 66, 69, 135, 0, 0, 0, 0, 0, 67,
    99, 156, 128, 0, 0, 0, 0, 68, 37, 105, 0, 0, 0, 0, 0, 69, 67, 126, 128, 0, 0, 0, 0, 70, 5, 75,
    0, 0, 0, 0, 0, 71, 35, 96, 128, 0, 0, 0, 0, 71, 238, 103, 128, 0, 0, 0, 0, 73, 3, 66, 128, 0,
    0, 0, 0, 73, 206, 73, 128, 0, 0, 0, 0, 74, 227, 36, 128, 0, 0, 0, 0, 75, 174, 43, 128, 0, 0,
    0, 0, 76, 204, 65, 0, 0, 0, 0, 0, 77, 142, 13, 128, 0, 0, 0, 0, 84, 75, 186, 240, 0, 0, 0, 0,
    86, 246, 178, 0, 1, 3, 2, 3, 2, 3, 2, 3, 2, 3, 2, 3, 2, 3, 2, 3, 2, 3, 2, 3, 2, 3, 4, 5, 3, 2,
    3, 2, 3, 2, 3, 2, 3, 2, 3, 4, 5, 4, 5, 4, 5, 4, 5, 4, 5, 4, 5, 4, 5, 4, 5, 4, 5, 4, 5, 4, 5,
    4, 5, 4, 5, 4, 5, 3, 5, 3, 0, 0, 133, 200, 0, 0, 0, 0, 126, 144, 0, 4, 0, 0, 168, 192, 1, 8,
    0, 0, 154, 176, 0, 12, 0, 0, 154, 176, 1, 12, 0, 0, 140, 160, 0, 16, 76, 77, 84, 0, 43, 48,
    57, 0, 43, 49, 50, 0, 43, 49, 49, 0, 43, 49, 48, 0, 10, 60, 43, 49, 49, 62, 45, 49, 49, 10,
];

/// `Asia/Samarkand`.
#[verifier::opaque]
pub const ASIA_SAMARKAND: [u8; 366] = [
    84, 90, 105, 102, 50, 0, 0, 0, 0, 0, 0, 0, 0, 0, 0, 0, 0, 0, 0, 0, 0, 0, 0, 0, 0, 0, 0, 0, 0,
    0, 0, 0, 0, 0, 0, 0, 0, 0, 0, 1, 0, 0, 0, 1, 0, 0, 0, 0, 0, 0, 0, 84, 90, 105, 102, 50, 0, 0,
    0, 0, 0, 0, 0, 0, 0, 0, 0, 0, 0, 0, 0, 0, 0, 0, 0, 0, 0, 0, 0, 0, 0, 0, 0, 0, 0, 0, 24, 0, 0,
    0, 5, 0, 0, 0, 16, 255, 255, 255, 255, 170, 25, 133, 55, 255, 255, 255, 255, 181, 163, 253,
    64, 0, 0, 0, 0, 21, 39, 139, 176, 0, 0, 0, 0, 22, 24, 192, 32, 0, 0, 0, 0, 23, 8, 177, 32, 0,
    0, 0, 0, 23, 249, 243, 160, 0, 0, 0, 0, 24, 233, 242, 176, 0, 0, 0, 0, 25, 219, 39, 32, 0, 0,
    0, 0, 26, 204, 119, 176, 0, 0, 0, 0, 27, 188, 132, 208, 0, 0, 0, 0, 28, 172, 117, 208, 0, 0,
    0, 0, 29, 156, 102, 208, 0, 0, 0, 0, 30, 140, 87, 208, 0, 0, 0, 0, 31, 124, 72, 208, 0, 0, 0,
    0, 32, 108, 57, 208, 0, 0, 0, 0, 33, 92, 42, 208, 0, 0, 0, 0, 34, 76, 27, 208, 0, 0, 0, 0, 35,
    60, 12, 208, 0, 0, 0, 0, 36, 43, 253, 208, 0, 0, 0, 0, 37, 27, 238, 208, 0, 0, 0, 0, 38, 11,
    223, 208, 0, 0, 0, 0, 39, 5, 11, 80, 0, 0, 0, 0, 39, 244, 252, 80, 0, 0, 0, 0, 40, 228, 237,
    80, 1, 2, 3, 4, 3, 2, 3, 2, 3, 2, 3, 2, 3, 2, 3, 2, 3, 2, 3, 2, 3, 2, 3, 2, 0, 0, 62, 201, 0,
    0, 0, 0, 56, 64, 0, 4, 0, 0, 70, 80, 0, 8, 0, 0, 84, 96, 1, 12, 0, 0, 84, 96, 0, 12, 76, 77,
    84, 0, 43, 48, 52, 0, 43, 48, 53, 0, 43, 48, 54, 0, 10, 60, 43, 48, 53, 62, 45, 53, 10,
];

/// `Asia/Seoul`.
#[verifier::opaque]
pub const ASIA_SEOUL: [u8; 415] = [
    84, 90, 105, 102, 50, 0, 0, 0, 0, 0, 0, 0, 0, 0, 0, 0, 0, 0, 0, 0, 0, 0, 0, 0, 0, 0, 0, 0, 0,
    0, 0, 0, 0, 0, 0, 0, 0, 0, 0, 1, 0, 0, 0, 1, 0, 0, 0, 0, 0, 0, 0, 84, 90, 105, 102, 50, 0, 0,
    0, 0, 0, 0, 0, 0, 0, 0, 0, 0, 0, 0, 0, 0, 0, 0, 0, 0, 0, 0, 0, 0, 0, 0, 0, 0, 0, 0, 29, 0, 0,
    0, 6, 0, 0, 0, 16, 255, 255, 255, 255, 139, 215, 240, 120, 255, 255, 255, 255, 146, 230, 22,
    248, 255, 255, 255, 255, 210, 67, 39, 240, 255, 255, 255, 255, 215, 101, 143, 112, 255, 255,
    255, 255, 215, 238, 157, 96, 255, 255, 255, 255, 216, 248, 250, 112, 255, 255, 255, 255, 217,
    205, 45, 224, 255, 255, 255, 255, 218, 215, 138, 240, 255, 255, 255, 255, 219, 173, 15, 224,
    255, 255, 255, 255, 220, 230, 226, 240, 255, 255, 255, 255, 221, 140, 241, 224, 255, 255, 255,
    255, 226, 79, 41, 240, 255, 255, 255, 255, 228, 107, 183, 248, 255, 255, 255, 255, 229, 19,
    24, 104, 255, 255, 255, 255, 230, 98, 3, 120, 255, 255, 255, 255, 231, 17, 76, 232, 255, 255,
    255, 255, 232, 47, 112, 120, 255, 255, 255, 255, 232, 231, 244, 104, 255, 255, 255, 255, 234,
    15, 82, 120, 255, 255, 255, 255, 234, 199, 214, 104, 255, 255, 255, 255, 235, 239, 52, 120,
    255, 255, 255, 255, 236, 167, 184, 104, 255, 255, 255, 255, 237, 207, 22, 120, 255, 255, 255,
    255, 238, 135, 154, 104, 255, 255, 255, 255, 240, 53, 113, 120, 0, 0, 0, 0, 32, 163, 96, 144,
    0, 0, 0, 0, 33, 110, 103, 144, 0, 0, 0, 0, 34, 131, 66, 144, 0, 0, 0, 0, 35, 78, 73, 144, 1,
    2, 4, 3, 4, 3, 4, 3, 4, 3, 4, 1, 5, 1, 5, 1, 5, 1, 5, 1, 5, 1, 5, 1, 4, 3, 4, 3, 4, 0, 0, 119,
    8, 0, 0, 0, 0, 119, 136, 0, 4, 0, 0, 126, 144, 0, 8, 0, 0, 140, 160, 1, 12, 0, 0, 126, 144, 0,
    4, 0, 0, 133, 152, 1, 12, 76, 77, 84, 0, 75, 83, 84, 0, 74, 83, 84, 0, 75, 68, 84, 0, 10, 75,
    83, 84, 45, 57, 10,
];

/// `Asia/Shanghai`.
#[verifier::opaque]
pub const ASIA_SHANGHAI: [u8; 393] = [
    84, 90, 105, 102, 50, 0, 0, 0, 0, 0, 0, 0, 0, 0, 0, 0, 0, 0, 0, 0, 0, 0, 0, 0, 0, 0, 0, 0, 0,
    0, 0, 0, 0, 0, 0, 0, 0, 0, 0, 1, 0, 0, 0, 1, 0, 0, 0, 0, 0, 0, 0, 84, 90, 105, 102, 50, 0, 0,
    0, 0, 0, 0, 0, 0, 0, 0, 0, 0, 0, 0, 0, 0, 0, 0, 0, 0, 0, 0, 0, 0, 0, 0, 0, 0, 0, 0, 29, 0, 0,
    0, 3, 0, 0, 0, 12, 255, 255, 255, 255, 126, 54, 67, 41, 255, 255, 255, 255, 160, 151, 162,
    128, 255, 255, 255, 255, 161, 121, 4, 240, 255, 255, 255, 255, 200, 89, 94, 128, 255, 255,
    255, 255, 201, 9, 249, 112, 255, 255, 255, 255, 201, 211, 189, 0, 255, 255, 255, 255, 203, 5,
    138, 240, 255, 255, 255, 255, 203, 124, 64, 0, 255, 255, 255, 255, 210, 59, 62, 240, 255, 255,
    255, 255, 211, 139, 123, 128, 255, 255, 255, 255, 212, 66, 173, 240, 255, 255, 255, 255, 213,
    69, 34, 0, 255, 255, 255, 255, 214, 76, 191, 240, 255, 255, 255, 255, 215, 60, 191, 0, 255,
    255, 255, 255, 216, 6, 102, 112, 255, 255, 255, 255, 217, 29, 242, 128, 255, 255, 255, 255,
    217, 65, 124, 240, 0, 0, 0, 0, 30, 186, 82, 32, 0, 0, 0, 0, 31, 105, 155, 144, 0, 0, 0, 0, 32,
    126, 132, 160, 0, 0, 0, 0, 33, 73, 125, 144, 0, 0, 0, 0, 34, 103, 161, 32, 0, 0, 0, 0, 35, 41,
    95, 144, 0, 0, 0, 0, 36, 71, 131, 32, 0, 0, 0, 0, 37, 18, 124, 16, 0, 0, 0, 0, 38, 39, 101,
    32, 0, 0, 0, 0, 38, 242, 94, 16, 0, 0, 0, 0, 40, 7, 71, 32, 0, 0, 0, 0, 40, 210, 64, 16, 2, 1,
    2, 1, 2, 1, 2, 1, 2, 1, 2, 1, 2, 1, 2, 1, 2, 1, 2, 1, 2, 1, 2, 1, 2, 1, 2, 1, 2, 0, 0, 113,
    215, 0, 0, 0, 0, 126, 144, 1, 4, 0, 0, 112, 128, 0, 8, 76, 77, 84, 0, 67, 68, 84, 0, 67, 83,
    84, 0, 10, 67, 83, 84, 45, 56, 10,
];

/// `Asia/Singapore`.
#[verifier::opaque]
pub const ASIA_SINGAPORE: [u8; 256] = [
    84, 90, 105, 102, 50, 0, 0, 0, 0, 0, 0, 0, 0, 0, 0, 0, 0, 0, 0, 0, 0, 0, 0, 0, 0, 0, 0, 0, 0,
    0, 0, 0, 0, 0, 0, 0, 0, 0, 0, 1, 0, 0, 0, 1, 0, 0, 0, 0, 0, 0, 0, 84, 90, 105, 102, 50, 0, 0,
    0, 0, 0, 0, 0, 0, 0, 0, 0, 0, 0, 0, 0, 0, 0, 0, 0, 0, 0, 0, 0, 0, 0, 0, 0, 0, 0, 0, 8, 0, 0,
    0, 8, 0, 0, 0, 32, 255, 255, 255, 255, 126, 54, 83, 163, 255, 255, 255, 255, 134, 131, 133,
    163, 255, 255, 255, 255, 186, 103, 78, 144, 255, 255, 255, 255, 192, 10, 228, 96, 255, 255,
    255, 255, 202, 179, 229, 96, 255, 255, 255, 255, 203, 145, 95, 8, 255, 255, 255, 255, 210, 72,
    109, 240, 0, 0, 0, 0, 22, 145, 238, 0, 1, 2, 3, 4, 5, 6, 5, 7, 0, 0, 97, 93, 0, 0, 0, 0, 97,
    93, 0, 4, 0, 0, 98, 112, 0, 8, 0, 0, 103, 32, 1, 12, 0, 0, 103, 32, 0, 12, 0, 0, 105, 120, 0,
    18, 0, 0, 126, 144, 0, 24, 0, 0, 112, 128, 0, 28, 76, 77, 84, 0, 83, 77, 84, 0, 43, 48, 55, 0,
    43, 48, 55, 50, 48, 0, 43, 48, 55, 51, 48, 0, 43, 48, 57, 0, 43, 48, 56, 0, 10, 60, 43, 48,
    56, 62, 45, 56, 10,
];

/// `Asia/Srednekolymsk`.
#[verifier::opaque]
pub const ASIA_SREDNEKOLYMSK: [u8; 742] = [
    84, 90, 105, 102, 50, 0, 0, 0, 0, 0, 0, 0, 0, 0, 0, 0, 0, 0, 0, 0, 0, 0, 0, 0, 0, 0, 0, 0, 0,
    0, 0, 0, 0, 0, 0, 0, 0, 0, 0, 1, 0, 0, 0, 1, 0, 0, 0, 0, 0, 0, 0, 84, 90, 105, 102, 50, 0, 0,
    0, 0, 0, 0, 0, 0, 0, 0, 0, 0, 0, 0, 0, 0, 0, 0, 0, 0, 0, 0, 0, 0, 0, 0, 0, 0, 0, 0, 65, 0, 0,
    0, 6, 0, 0, 0, 16, 255, 255, 255, 255, 170, 25, 51, 228, 255, 255, 255, 255, 181, 163, 168,
    224, 0, 0, 0, 0, 21, 39, 55, 80, 0, 0, 0, 0, 22, 24, 107, 192, 0, 0, 0, 0, 23, 8, 106, 208, 0,
    0, 0, 0, 23, 249, 159, 64, 0, 0, 0, 0, 24, 233, 158, 80, 0, 0, 0, 0, 25, 218, 210, 192, 0, 0,
    0, 0, 26, 204, 35, 80, 0, 0, 0, 0, 27, 188, 48, 112, 0, 0, 0, 0, 28, 172, 33, 112, 0, 0, 0, 0,
    29, 156, 18, 112, 0, 0, 0, 0, 30, 140, 3, 112, 0, 0, 0, 0, 31, 123, 244, 112, 0, 0, 0, 0, 32,
    107, 229, 112, 0, 0, 0, 0, 33, 91, 214, 112, 0, 0, 0, 0, 34, 75, 199, 112, 0, 0, 0, 0, 35, 59,
    184, 112, 0, 0, 0, 0, 36, 43, 169, 112, 0, 0, 0, 0, 37, 27, 154, 112, 0, 0, 0, 0, 38, 11, 139,
    112, 0, 0, 0, 0, 39, 4, 182, 240, 0, 0, 0, 0, 39, 244, 167, 240, 0, 0, 0, 0, 40, 228, 167, 0,
    0, 0, 0, 0, 41, 120, 79, 0, 0, 0, 0, 0, 41, 212, 137, 240, 0, 0, 0, 0, 42, 196, 122, 240, 0,
    0, 0, 0, 43, 180, 107, 240, 0, 0, 0, 0, 44, 164, 92, 240, 0, 0, 0, 0, 45, 148, 77, 240, 0, 0,
    0, 0, 46, 132, 62, 240, 0, 0, 0, 0, 47, 116, 47, 240, 0, 0, 0, 0, 48, 100, 32, 240, 0, 0, 0,
    0, 49, 93, 76, 112, 0, 0, 0, 0, 50, 114, 39, 112, 0, 0, 0, 0, 51, 61, 46, 112, 0, 0, 0, 0, 52,
    82, 9, 112, 0, 0, 0, 0, 53, 29, 16, 112, 0, 0, 0, 0, 54, 49, 235, 112, 0, 0, 0, 0, 54, 252,
    242, 112, 0, 0, 0, 0, 56, 27, 7, 240, 0, 0, 0, 0, 56, 220, 212, 112, 0, 0, 0, 0, 57, 250, 233,
    240, 0, 0, 0, 0, 58, 188, 182, 112, 0, 0, 0, 0, 59, 218, 203, 240, 0, 0, 0, 0, 60, 165, 210,
    240, 0, 0, 0, 0, 61, 186, 173, 240, 0, 0, 0, 0, 62, 133, 180, 240, 0, 0, 0, 0, 63, 154, 143,
    240, 0, 0, 0, 0, 64, 101, 150, 240, 0, 0, 0, 0, 65, 131, 172, 112, 0, 0, 0, 0, 66, 69, 120,
    240, 0, 0, 0, 0, 67, 99, 142, 112, 0, 0, 0, 0, 68, 37, 90, 240, 0, 0, 0, 0, 69, 67, 112, 112,
    0, 0, 0, 0, 70, 5, 60, 240, 0, 0, 0, 0, 71, 35, 82, 112, 0, 0, 0, 0, 71, 238, 89, 112, 0, 0,
    0, 0, 73, 3, 52, 112, 0, 0, 0, 0, 73, 206, 59, 112, 0, 0, 0, 0, 74, 227, 22, 112, 0, 0, 0, 0,
    75, 174, 29, 112, 0, 0, 0, 0, 76, 204, 50, 240, 0, 0, 0, 0, 77, 141, 255, 112, 0, 0, 0, 0, 84,
    75, 172, 224, 1, 3, 2, 3, 2, 3, 2, 3, 2, 3, 2, 3, 2, 3, 2, 3, 2, 3, 2, 3, 2, 3, 4, 1, 3, 2, 3,
    2, 3, 2, 3, 2, 3, 2, 3, 2, 3, 2, 3, 2, 3, 2, 3, 2, 3, 2, 3, 2, 3, 2, 3, 2, 3, 2, 3, 2, 3, 2,
    3, 2, 3, 2, 3, 5, 3, 0, 0, 144, 28, 0, 0, 0, 0, 140, 160, 0, 4, 0, 0, 168, 192, 1, 8, 0, 0,
    154, 176, 0, 12, 0, 0, 154, 176, 1, 12, 0, 0, 168, 192, 0, 8, 76, 77, 84, 0, 43, 49, 48, 0,
    43, 49, 50, 0, 43, 49, 49, 0, 10, 60, 43, 49, 49, 62, 45, 49, 49, 10,
];

/// `Asia/Taipei`.
#[verifier::opaque]
pub const ASIA_TAIPEI: [u8; 511] = [
    84, 90, 105, 102, 50, 0, 0, 0, 0, 0, 0, 0, 0, 0, 0, 0, 0, 0, 0, 0, 0, 0, 0, 0, 0, 0, 0, 0, 0,
    0, 0, 0, 0, 0, 0, 0, 0, 0, 0, 1, 0, 0, 0, 1, 0, 0, 0, 0, 0, 0, 0, 84, 90, 105, 102, 50, 0, 0,
    0, 0, 0, 0, 0, 0, 0, 0, 0, 0, 0, 0, 0, 0, 0, 0, 0, 0, 0, 0, 0, 0, 0, 0, 0, 0, 0, 0, 41, 0, 0,
    0, 4, 0, 0, 0, 16, 255, 255, 255, 255, 116, 206, 240, 24, 255, 255, 255, 255, 195, 85, 73,
    128, 255, 255, 255, 255, 210, 84, 89, 128, 255, 255, 255, 255, 211, 139, 123, 128, 255, 255,
    255, 255, 212, 66, 173, 240, 255, 255, 255, 255, 213, 69, 34, 0, 255, 255, 255, 255, 214, 76,
    191, 240, 255, 255, 255, 255, 215, 60, 191, 0, 255, 255, 255, 255, 216, 6, 102, 112, 255, 255,
    255, 255, 217, 29, 242, 128, 255, 255, 255, 255, 217, 231, 153, 240, 255, 255, 255, 255, 218,
    255, 38, 0, 255, 255, 255, 255, 219, 200, 205, 112, 255, 255, 255, 255, 220, 224, 89, 128,
    255, 255, 255, 255, 221, 170, 0, 240, 255, 255, 255, 255, 222, 114, 115, 0, 255, 255, 255,
    255, 223, 181, 100, 112, 255, 255, 255, 255, 224, 124, 133, 0, 255, 255, 255, 255, 225, 150,
    151, 240, 255, 255, 255, 255, 226, 93, 184, 128, 255, 255, 255, 255, 227, 119, 203, 112, 255,
    255, 255, 255, 228, 62, 236, 0, 255, 255, 255, 255, 229, 48, 32, 112, 255, 255, 255, 255, 230,
    33, 113, 0, 255, 255, 255, 255, 231, 18, 165, 112, 255, 255, 255, 255, 232, 2, 164, 128, 255,
    255, 255, 255, 232, 243, 216, 240, 255, 255, 255, 255, 233, 227, 216, 0, 255, 255, 255, 255,
    234, 213, 12, 112, 255, 255, 255, 255, 235, 197, 11, 128, 255, 255, 255, 255, 236, 182, 63,
    240, 255, 255, 255, 255, 237, 247, 252, 0, 255, 255, 255, 255, 238, 152, 196, 240, 255, 255,
    255, 255, 239, 217, 47, 128, 255, 255, 255, 255, 240, 121, 248, 112, 0, 0, 0, 0, 7, 252, 86,
    0, 0, 0, 0, 0, 8, 237, 138, 112, 0, 0, 0, 0, 9, 221, 137, 128, 0, 0, 0, 0, 10, 206, 189, 240,
    0, 0, 0, 0, 17, 219, 161, 128, 0, 0, 0, 0, 18, 84, 221, 112, 1, 2, 1, 3, 1, 3, 1, 3, 1, 3, 1,
    3, 1, 3, 1, 3, 1, 3, 1, 3, 1, 3, 1, 3, 1, 3, 1, 3, 1, 3, 1, 3, 1, 3, 1, 3, 1, 3, 1, 3, 1, 0,
    0, 113, 232, 0, 0, 0, 0, 112, 128, 0, 4, 0, 0, 126, 144, 0, 8, 0, 0, 126, 144, 1, 12, 76, 77,
    84, 0, 67, 83, 84, 0, 74, 83, 84, 0, 67, 68, 84, 0, 10, 67, 83, 84, 45, 56, 10,
];

/// `Asia/Tashkent`.
#[verifier::opaque]
pub const ASIA_TASHKENT: [u8; 366] = [
    84, 90, 105, 102, 50, 0, 0, 0, 0, 0, 0, 0, 0, 0, 0, 0, 0, 0, 0, 0, 0, 0, 0, 0, 0, 0, 0, 0, 0,
    0, 0, 0, 0, 0, 0, 0, 0, 0, 0, 1, 0, 0, 0, 1, 0, 0, 0, 0, 0, 0, 0, 84, 90, 105, 102, 50, 0, 0,
    0, 0, 0, 0, 0, 0, 0, 0, 0, 0, 0, 0, 0, 0, 0, 0, 0, 0, 0, 0, 0, 0, 0, 0, 0, 0, 0, 0, 24, 0, 0,
    0, 5, 0, 0, 0, 16, 255, 255, 255, 255, 170, 25, 131, 9, 255, 255, 255, 255, 181, 163, 239, 48,
    0, 0, 0, 0, 21, 39, 125, 160, 0, 0, 0, 0, 22, 24, 178, 16, 0, 0, 0, 0, 23, 8, 177, 32, 0, 0,
    0, 0, 23, 249, 229, 144, 0, 0, 0, 0, 24, 233, 228, 160, 0, 0, 0, 0, 25, 219, 25, 16, 0, 0, 0,
    0, 26, 204, 105, 160, 0, 0, 0, 0, 27, 188, 118, 192, 0, 0, 0, 0, 28, 172, 103, 192, 0, 0, 0,
    0, 29, 156, 88, 192, 0, 0, 0, 0, 30, 140, 73, 192, 0, 0, 0, 0, 31, 124, 58, 192, 0, 0, 0, 0,
    32, 108, 43, 192, 0, 0, 0, 0, 33, 92, 28, 192, 0, 0, 0, 0, 34, 76, 13, 192, 0, 0, 0, 0, 35,
    59, 254, 192, 0, 0, 0, 0, 36, 43, 239, 192, 0, 0, 0, 0, 37, 27, 224, 192, 0, 0, 0, 0, 38, 11,
    209, 192, 0, 0, 0, 0, 39, 4, 253, 64, 0, 0, 0, 0, 39, 244, 238, 64, 0, 0, 0, 0, 40, 228, 237,
    80, 1, 3, 2, 3, 2, 3, 2, 3, 2, 3, 2, 3, 2, 3, 2, 3, 2, 3, 2, 3, 2, 3, 4, 1, 0, 0, 64, 247, 0,
    0, 0, 0, 70, 80, 0, 4, 0, 0, 98, 112, 1, 8, 0, 0, 84, 96, 0, 12, 0, 0, 84, 96, 1, 12, 76, 77,
    84, 0, 43, 48, 53, 0, 43, 48, 55, 0, 43, 48, 54, 0, 10, 60, 43, 48, 53, 62, 45, 53, 10,
];

/// `Asia/Tbilisi`.
#[verifier::opaque]
pub const ASIA_TBILISI: [u8; 620] = [
    84, 90, 105, 102, 50, 0, 0, 0, 0, 0, 0, 0, 0, 0, 0, 0, 0, 0, 0, 0, 0, 0, 0, 0, 0, 0, 0, 0, 0,
    0, 0, 0, 0, 0, 0, 0, 0, 0, 0, 1, 0, 0, 0, 1, 0, 0, 0, 0, 0, 0, 0, 84, 90, 105, 102, 50, 0, 0,
    0, 0, 0, 0, 0, 0, 0, 0, 0, 0, 0, 0, 0, 0, 0, 0, 0, 0, 0, 0, 0, 0, 0, 0, 0, 0, 0, 0, 51, 0, 0,
    0, 6, 0, 0, 0, 21, 255, 255, 255, 255, 86, 182, 186, 1, 255, 255, 255, 255, 170, 25, 154, 1,
    255, 255, 255, 255, 231, 218, 12, 80, 0, 0, 0, 0, 21, 39, 153, 192, 0, 0, 0, 0, 22, 24, 206,
    48, 0, 0, 0, 0, 23, 8, 205, 64, 0, 0, 0, 0, 23, 250, 1, 176, 0, 0, 0, 0, 24, 234, 0, 192, 0,
    0, 0, 0, 25, 219, 53, 48, 0, 0, 0, 0, 26, 204, 133, 192, 0, 0, 0, 0, 27, 188, 146, 224, 0, 0,
    0, 0, 28, 172, 131, 224, 0, 0, 0, 0, 29, 156, 116, 224, 0, 0, 0, 0, 30, 140, 101, 224, 0, 0,
    0, 0, 31, 124, 86, 224, 0, 0, 0, 0, 32, 108, 71, 224, 0, 0, 0, 0, 33, 92, 56, 224, 0, 0, 0, 0,
    34, 76, 41, 224, 0, 0, 0, 0, 35, 60, 26, 224, 0, 0, 0, 0, 36, 44, 11, 224, 0, 0, 0, 0, 37, 27,
    252, 224, 0, 0, 0, 0, 38, 11, 237, 224, 0, 0, 0, 0, 39, 5, 25, 96, 0, 0, 0, 0, 39, 245, 10,
    96, 0, 0, 0, 0, 40, 229, 9, 112, 0, 0, 0, 0, 41, 212, 222, 80, 0, 0, 0, 0, 42, 196, 193, 64,
    0, 0, 0, 0, 43, 180, 192, 80, 0, 0, 0, 0, 44, 164, 163, 64, 0, 0, 0, 0, 45, 148, 162, 80, 0,
    0, 0, 0, 46, 132, 133, 64, 0, 0, 0, 0, 47, 116, 118, 64, 0, 0, 0, 0, 48, 100, 89, 48, 0, 0, 0,
    0, 49, 93, 146, 192, 0, 0, 0, 0, 52, 82, 65, 176, 0, 0, 0, 0, 53, 29, 86, 192, 0, 0, 0, 0, 54,
    50, 35, 176, 0, 0, 0, 0, 54, 253, 56, 192, 0, 0, 0, 0, 56, 27, 64, 48, 0, 0, 0, 0, 56, 221,
    26, 192, 0, 0, 0, 0, 57, 251, 34, 48, 0, 0, 0, 0, 58, 188, 252, 192, 0, 0, 0, 0, 59, 219, 4,
    48, 0, 0, 0, 0, 60, 166, 25, 64, 0, 0, 0, 0, 61, 186, 230, 48, 0, 0, 0, 0, 62, 133, 251, 64,
    0, 0, 0, 0, 63, 154, 200, 48, 0, 0, 0, 0, 64, 101, 221, 64, 0, 0, 0, 0, 64, 221, 199, 176, 0,
    0, 0, 0, 65, 132, 28, 240, 0, 0, 0, 0, 66, 69, 233, 112, 1, 2, 4, 3, 4, 3, 4, 3, 4, 3, 4, 3,
    4, 3, 4, 3, 4, 3, 4, 3, 4, 3, 4, 5, 2, 5, 2, 5, 2, 5, 4, 3, 4, 3, 4, 3, 4, 3, 4, 3, 4, 3, 4,
    3, 4, 3, 4, 3, 5, 2, 4, 0, 0, 41, 255, 0, 0, 0, 0, 41, 255, 0, 4, 0, 0, 42, 48, 0, 9, 0, 0,
    70, 80, 1, 13, 0, 0, 56, 64, 0, 17, 0, 0, 56, 64, 1, 17, 76, 77, 84, 0, 84, 66, 77, 84, 0, 43,
    48, 51, 0, 43, 48, 53, 0, 43, 48, 52, 0, 10, 60, 43, 48, 52, 62, 45, 52, 10,
];

/// `Asia/Tehran`.
#[verifier::opaque]
pub const ASIA_TEHRAN: [u8; 812] = [
    84, 90, 105, 102, 50, 0, 0, 0, 0, 0, 0, 0, 0, 0, 0, 0, 0, 0, 0, 0, 0, 0, 0, 0, 0, 0, 0, 0, 0,
    0, 0, 0, 0, 0, 0, 0, 0, 0, 0, 1, 0, 0, 0, 1, 0, 0, 0, 0, 0, 0, 0, 84, 90, 105, 102, 50, 0, 0,
    0, 0, 0, 0, 0, 0, 0, 0, 0, 0, 0, 0, 0, 0, 0, 0, 0, 0, 0, 0, 0, 0, 0, 0, 0, 0, 0, 0, 71, 0, 0,
    0, 6, 0, 0, 0, 28, 255, 255, 255, 255, 154, 108, 125, 200, 255, 255, 255, 255, 191, 0, 204,
    72, 0, 0, 0, 0, 13, 148, 68, 56, 0, 0, 0, 0, 14, 173, 19, 184, 0, 0, 0, 0, 15, 121, 115, 64,
    0, 0, 0, 0, 16, 40, 202, 192, 0, 0, 0, 0, 16, 169, 253, 192, 0, 0, 0, 0, 17, 173, 188, 72, 0,
    0, 0, 0, 18, 69, 74, 184, 0, 0, 0, 0, 19, 55, 236, 200, 0, 0, 0, 0, 20, 45, 21, 184, 0, 0, 0,
    0, 40, 32, 118, 200, 0, 0, 0, 0, 40, 219, 157, 184, 0, 0, 0, 0, 41, 203, 156, 200, 0, 0, 0, 0,
    42, 190, 34, 184, 0, 0, 0, 0, 43, 172, 208, 72, 0, 0, 0, 0, 44, 159, 86, 56, 0, 0, 0, 0, 45,
    142, 3, 200, 0, 0, 0, 0, 46, 128, 137, 184, 0, 0, 0, 0, 47, 111, 55, 72, 0, 0, 0, 0, 48, 97,
    189, 56, 0, 0, 0, 0, 49, 80, 106, 200, 0, 0, 0, 0, 50, 66, 240, 184, 0, 0, 0, 0, 51, 50, 239,
    200, 0, 0, 0, 0, 52, 37, 117, 184, 0, 0, 0, 0, 53, 20, 35, 72, 0, 0, 0, 0, 54, 6, 169, 56, 0,
    0, 0, 0, 54, 245, 86, 200, 0, 0, 0, 0, 55, 231, 220, 184, 0, 0, 0, 0, 56, 214, 138, 72, 0, 0,
    0, 0, 57, 201, 16, 56, 0, 0, 0, 0, 58, 185, 15, 72, 0, 0, 0, 0, 59, 171, 149, 56, 0, 0, 0, 0,
    60, 154, 66, 200, 0, 0, 0, 0, 61, 140, 200, 184, 0, 0, 0, 0, 62, 123, 118, 72, 0, 0, 0, 0, 63,
    109, 252, 56, 0, 0, 0, 0, 64, 92, 169, 200, 0, 0, 0, 0, 65, 79, 47, 184, 0, 0, 0, 0, 66, 63,
    46, 200, 0, 0, 0, 0, 67, 49, 180, 184, 0, 0, 0, 0, 71, 226, 201, 72, 0, 0, 0, 0, 72, 213, 79,
    56, 0, 0, 0, 0, 73, 197, 78, 72, 0, 0, 0, 0, 74, 183, 212, 56, 0, 0, 0, 0, 75, 166, 129, 200,
    0, 0, 0, 0, 76, 153, 7, 184, 0, 0, 0, 0, 77, 135, 181, 72, 0, 0, 0, 0, 78, 122, 59, 56, 0, 0,
    0, 0, 79, 104, 232, 200, 0, 0, 0, 0, 80, 91, 110, 184, 0, 0, 0, 0, 81, 75, 109, 200, 0, 0, 0,
    0, 82, 61, 243, 184, 0, 0, 0, 0, 83, 44, 161, 72, 0, 0, 0, 0, 84, 31, 39, 56, 0, 0, 0, 0, 85,
    13, 212, 200, 0, 0, 0, 0, 86, 0, 90, 184, 0, 0, 0, 0, 86, 239, 8, 72, 0, 0, 0, 0, 87, 225,
    142, 56, 0, 0, 0, 0, 88, 209, 141, 72, 0, 0, 0, 0, 89, 196, 19, 56, 0, 0, 0, 0, 90, 178, 192,
    200, 0, 0, 0, 0, 91, 165, 70, 184, 0, 0, 0, 0, 92, 147, 244, 72, 0, 0, 0, 0, 93, 134, 122, 56,
    0, 0, 0, 0, 94, 117, 39, 200, 0, 0, 0, 0, 95, 103, 173, 184, 0, 0, 0, 0, 96, 87, 172, 200, 0,
    0, 0, 0, 97, 74, 50, 184, 0, 0, 0, 0, 98, 56, 224, 72, 0, 0, 0, 0, 99, 43, 102, 56, 1, 3, 2,
    5, 4, 5, 3, 2, 3, 2, 3, 2, 3, 2, 3, 2, 3, 2, 3, 2, 3, 2, 3, 2, 3, 2, 3, 2, 3, 2, 3, 2, 3, 2,
    3, 2, 3, 2, 3, 2, 3, 2, 3, 2, 3, 2, 3, 2, 3, 2, 3, 2, 3, 2, 3, 2, 3, 2, 3, 2, 3, 2, 3, 2, 3,
    2, 3, 2, 3, 2, 3, 0, 0, 48, 56, 0, 0, 0, 0, 48, 56, 0, 4, 0, 0, 63, 72, 1, 8, 0, 0, 49, 56, 0,
    14, 0, 0, 70, 80, 1, 20, 0, 0, 56, 64, 0, 24, 76, 77, 84, 0, 84, 77, 84, 0, 43, 48, 52, 51,
    48, 0, 43, 48, 51, 51, 48, 0, 43, 48, 53, 0, 43, 48, 52, 0, 10, 60, 43, 48, 51, 51, 48, 62,
    45, 51, 58, 51, 48, 10,
];

/// `Asia/Thimphu`.
#[verifier::opaque]
pub const ASIA_THIMPHU: [u8; 154] = [
    84, 90, 105, 102, 50, 0, 0, 0, 0, 0, 0, 0, 0, 0, 0, 0, 0, 0, 0, 0, 0, 0, 0, 0, 0, 0, 0, 0, 0,
    0, 0, 0, 0, 0, 0, 0, 0, 0, 0, 1, 0, 0, 0, 1, 0, 0, 0, 0, 0, 0, 0, 84, 90, 105, 102, 50, 0, 0,
    0, 0, 0, 0, 0, 0, 0, 0, 0, 0, 0, 0, 0, 0, 0, 0, 0, 0, 0, 0, 0, 0, 0, 0, 0, 0, 0, 0, 2, 0, 0,
    0, 3, 0, 0, 0, 14, 255, 255, 255, 255, 213, 230, 21, 116, 0, 0, 0, 0, 33, 97, 77, 168, 1, 2,
    0, 0, 84, 12, 0, 0, 0, 0, 77, 88, 0, 4, 0, 0, 84, 96, 0, 10, 76, 77, 84, 0, 43, 48, 53, 51,
    48, 0, 43, 48, 54, 0, 10, 60, 43, 48, 54, 62, 45, 54, 10,
];

/// `Asia/Tokyo`.
#[verifier::opaque]
pub const ASIA_TOKYO: [u8; 213] = [
    84, 90, 105, 102, 50, 0, 0, 0, 0, 0, 0, 0, 0, 0, 0, 0, 0, 0, 0, 0, 0, 0, 0, 0, 0, 0, 0, 0, 0,
    0, 0, 0, 0, 0, 0, 0, 0, 0, 0, 1, 0, 0, 0, 1, 0, 0, 0, 0, 0, 0, 0, 84, 90, 105, 102, 50, 0, 0,
    0, 0, 0, 0, 0, 0, 0, 0, 0, 0, 0, 0, 0, 0, 0, 0, 0, 0, 0, 0, 0, 0, 0, 0, 0, 0, 0, 0, 9, 0, 0,
    0, 3, 0, 0, 0, 12, 255, 255, 255, 255, 101, 194, 164, 112, 255, 255, 255, 255, 215, 62, 2,
    112, 255, 255, 255, 255, 215, 237, 89, 240, 255, 255, 255, 255, 216, 248, 250, 112, 255, 255,
    255, 255, 217, 205, 59, 240, 255, 255, 255, 255, 219, 7, 0, 240, 255, 255, 255, 255, 219, 173,
    29, 240, 255, 255, 255, 255, 220, 230, 226, 240, 255, 255, 255, 255, 221, 140, 255, 240, 2, 1,
    2, 1, 2, 1, 2, 1, 2, 0, 0, 131, 3, 0, 0, 0, 0, 140, 160, 1, 4, 0, 0, 126, 144, 0, 8, 76, 77,
    84, 0, 74, 68, 84, 0, 74, 83, 84, 0, 10, 74, 83, 84, 45, 57, 10,
];

/// `Asia/Tomsk`.
#[verifier::opaque]
pub const ASIA_TOMSK: [u8; 753] = [
    84, 90, 105, 102, 50, 0, 0, 0, 0, 0, 0, 0, 0, 0, 0, 0, 0, 0, 0, 0, 0, 0, 0, 0, 0, 0, 0, 0, 0,
    0, 0, 0, 0, 0, 0, 0, 0, 0, 0, 1, 0, 0, 0, 1, 0, 0, 0, 0, 0, 0, 0, 84, 90, 105, 102, 50, 0, 0,
    0, 0, 0, 0, 0, 0, 0, 0, 0, 0, 0, 0, 0, 0, 0, 0, 0, 0, 0, 0, 0, 0, 0, 0, 0, 0, 0, 0, 67, 0, 0,
    0, 5, 0, 0, 0, 16, 255, 255, 255, 255, 161, 229, 78, 217, 255, 255, 255, 255, 181, 163, 225,
    32, 0, 0, 0, 0, 21, 39, 111, 144, 0, 0, 0, 0, 22, 24, 164, 0, 0, 0, 0, 0, 23, 8, 163, 16, 0,
    0, 0, 0, 23, 249, 215, 128, 0, 0, 0, 0, 24, 233, 214, 144, 0, 0, 0, 0, 25, 219, 11, 0, 0, 0,
    0, 0, 26, 204, 91, 144, 0, 0, 0, 0, 27, 188, 104, 176, 0, 0, 0, 0, 28, 172, 89, 176, 0, 0, 0,
    0, 29, 156, 74, 176, 0, 0, 0, 0, 30, 140, 59, 176, 0, 0, 0, 0, 31, 124, 44, 176, 0, 0, 0, 0,
    32, 108, 29, 176, 0, 0, 0, 0, 33, 92, 14, 176, 0, 0, 0, 0, 34, 75, 255, 176, 0, 0, 0, 0, 35,
    59, 240, 176, 0, 0, 0, 0, 36, 43, 225, 176, 0, 0, 0, 0, 37, 27, 210, 176, 0, 0, 0, 0, 38, 11,
    195, 176, 0, 0, 0, 0, 39, 4, 239, 48, 0, 0, 0, 0, 39, 244, 224, 48, 0, 0, 0, 0, 40, 228, 223,
    64, 0, 0, 0, 0, 41, 120, 135, 64, 0, 0, 0, 0, 41, 212, 194, 48, 0, 0, 0, 0, 42, 196, 179, 48,
    0, 0, 0, 0, 43, 180, 164, 48, 0, 0, 0, 0, 44, 164, 149, 48, 0, 0, 0, 0, 45, 148, 134, 48, 0,
    0, 0, 0, 46, 132, 119, 48, 0, 0, 0, 0, 47, 116, 104, 48, 0, 0, 0, 0, 48, 100, 89, 48, 0, 0, 0,
    0, 49, 93, 132, 176, 0, 0, 0, 0, 50, 114, 95, 176, 0, 0, 0, 0, 51, 61, 102, 176, 0, 0, 0, 0,
    52, 82, 65, 176, 0, 0, 0, 0, 53, 29, 72, 176, 0, 0, 0, 0, 54, 50, 35, 176, 0, 0, 0, 0, 54,
    253, 42, 176, 0, 0, 0, 0, 56, 27, 64, 48, 0, 0, 0, 0, 56, 221, 12, 176, 0, 0, 0, 0, 57, 251,
    34, 48, 0, 0, 0, 0, 58, 188, 238, 176, 0, 0, 0, 0, 59, 219, 4, 48, 0, 0, 0, 0, 60, 166, 11,
    48, 0, 0, 0, 0, 60, 206, 233, 176, 0, 0, 0, 0, 61, 186, 244, 64, 0, 0, 0, 0, 62, 133, 251, 64,
    0, 0, 0, 0, 63, 154, 214, 64, 0, 0, 0, 0, 64, 101, 221, 64, 0, 0, 0, 0, 65, 131, 242, 192, 0,
    0, 0, 0, 66, 69, 191, 64, 0, 0, 0, 0, 67, 99, 212, 192, 0, 0, 0, 0, 68, 37, 161, 64, 0, 0, 0,
    0, 69, 67, 182, 192, 0, 0, 0, 0, 70, 5, 131, 64, 0, 0, 0, 0, 71, 35, 152, 192, 0, 0, 0, 0, 71,
    238, 159, 192, 0, 0, 0, 0, 73, 3, 122, 192, 0, 0, 0, 0, 73, 206, 129, 192, 0, 0, 0, 0, 74,
    227, 92, 192, 0, 0, 0, 0, 75, 174, 99, 192, 0, 0, 0, 0, 76, 204, 121, 64, 0, 0, 0, 0, 77, 142,
    69, 192, 0, 0, 0, 0, 84, 75, 243, 48, 0, 0, 0, 0, 87, 73, 248, 192, 1, 3, 2, 3, 2, 3, 2, 3, 2,
    3, 2, 3, 2, 3, 2, 3, 2, 3, 2, 3, 2, 3, 4, 1, 3, 2, 3, 2, 3, 2, 3, 2, 3, 2, 3, 2, 3, 2, 3, 2,
    3, 2, 3, 2, 3, 2, 4, 1, 4, 1, 4, 1, 4, 1, 4, 1, 4, 1, 4, 1, 4, 1, 4, 1, 3, 1, 3, 0, 0, 79,
    167, 0, 0, 0, 0, 84, 96, 0, 4, 0, 0, 112, 128, 1, 8, 0, 0, 98, 112, 0, 12, 0, 0, 98, 112, 1,
    12, 76, 77, 84, 0, 43, 48, 54, 0, 43, 48, 56, 0, 43, 48, 55, 0, 10, 60, 43, 48, 55, 62, 45,
    55, 10,
];

/// `Asia/Ulaanbaatar`.
#[verifier::opaque]
pub const ASIA_ULAANBAATAR: [u8; 594] = [
    84, 90, 105, 102, 50, 0, 0, 0, 0, 0, 0, 0, 0, 0, 0, 0, 0, 0, 0, 0, 0, 0, 0, 0, 0, 0, 0, 0, 0,
    0, 0, 0, 0, 0, 0, 0, 0, 0, 0, 1, 0, 0, 0, 1, 0, 0, 0, 0, 0, 0, 0, 84, 90, 105, 102, 50, 0, 0,
    0, 0, 0, 0, 0, 0, 0, 0, 0, 0, 0, 0, 0, 0, 0, 0, 0, 0, 0, 0, 0, 0, 0, 0, 0, 0, 0, 0, 50, 0, 0,
    0, 4, 0, 0, 0, 16, 255, 255, 255, 255, 134, 211, 238, 76, 0, 0, 0, 0, 15, 11, 220, 144, 0, 0,
    0, 0, 24, 233, 200, 128, 0, 0, 0, 0, 25, 218, 252, 240, 0, 0, 0, 0, 26, 204, 77, 128, 0, 0, 0,
    0, 27, 188, 48, 112, 0, 0, 0, 0, 28, 172, 47, 128, 0, 0, 0, 0, 29, 156, 18, 112, 0, 0, 0, 0,
    30, 140, 17, 128, 0, 0, 0, 0, 31, 123, 244, 112, 0, 0, 0, 0, 32, 107, 243, 128, 0, 0, 0, 0,
    33, 91, 214, 112, 0, 0, 0, 0, 34, 75, 213, 128, 0, 0, 0, 0, 35, 59, 184, 112, 0, 0, 0, 0, 36,
    43, 183, 128, 0, 0, 0, 0, 37, 27, 154, 112, 0, 0, 0, 0, 38, 11, 153, 128, 0, 0, 0, 0, 39, 4,
    182, 240, 0, 0, 0, 0, 39, 244, 182, 0, 0, 0, 0, 0, 40, 228, 152, 240, 0, 0, 0, 0, 41, 212,
    152, 0, 0, 0, 0, 0, 42, 196, 122, 240, 0, 0, 0, 0, 43, 180, 122, 0, 0, 0, 0, 0, 44, 164, 92,
    240, 0, 0, 0, 0, 45, 148, 92, 0, 0, 0, 0, 0, 46, 132, 62, 240, 0, 0, 0, 0, 47, 116, 62, 0, 0,
    0, 0, 0, 48, 100, 32, 240, 0, 0, 0, 0, 49, 93, 90, 128, 0, 0, 0, 0, 50, 77, 61, 112, 0, 0, 0,
    0, 51, 61, 60, 128, 0, 0, 0, 0, 52, 45, 31, 112, 0, 0, 0, 0, 53, 29, 30, 128, 0, 0, 0, 0, 54,
    13, 1, 112, 0, 0, 0, 0, 58, 233, 179, 160, 0, 0, 0, 0, 59, 180, 172, 144, 0, 0, 0, 0, 60, 164,
    171, 160, 0, 0, 0, 0, 61, 148, 142, 144, 0, 0, 0, 0, 62, 132, 141, 160, 0, 0, 0, 0, 63, 116,
    112, 144, 0, 0, 0, 0, 64, 100, 111, 160, 0, 0, 0, 0, 65, 84, 82, 144, 0, 0, 0, 0, 66, 68, 81,
    160, 0, 0, 0, 0, 67, 52, 52, 144, 0, 0, 0, 0, 68, 36, 51, 160, 0, 0, 0, 0, 69, 29, 81, 16, 0,
    0, 0, 0, 85, 21, 154, 160, 0, 0, 0, 0, 86, 5, 97, 112, 0, 0, 0, 0, 86, 245, 124, 160, 0, 0, 0,
    0, 87, 229, 67, 112, 1, 3, 2, 3, 2, 3, 2, 3, 2, 3, 2, 3, 2, 3, 2, 3, 2, 3, 2, 3, 2, 3, 2, 3,
    2, 3, 2, 3, 2, 3, 2, 3, 2, 3, 2, 3, 2, 3, 2, 3, 2, 3, 2, 3, 2, 3, 2, 3, 2, 3, 0, 0, 100, 52,
    0, 0, 0, 0, 98, 112, 0, 4, 0, 0, 126, 144, 1, 8, 0, 0, 112, 128, 0, 12, 76, 77, 84, 0, 43, 48,
    55, 0, 43, 48, 57, 0, 43, 48, 56, 0, 10, 60, 43, 48, 56, 62, 45, 56, 10,
];

/// `Asia/Urumqi`.
#[verifier::opaque]
pub const ASIA_URUMQI: [u8; 133] = [
    84, 90, 105, 102, 50, 0, 0, 0, 0, 0, 0, 0, 0, 0, 0, 0, 0, 0, 0, 0, 0, 0, 0, 0, 0, 0, 0, 0, 0,
    0, 0, 0, 0, 0, 0, 0, 0, 0, 0, 1, 0, 0, 0, 1, 0, 0, 0, 0, 0, 0, 0, 84, 90, 105, 102, 50, 0, 0,
    0, 0, 0, 0, 0, 0, 0, 0, 0, 0, 0, 0, 0, 0, 0, 0, 0, 0, 0, 0, 0, 0, 0, 0, 0, 0, 0, 0, 1, 0, 0,
    0, 2, 0, 0, 0, 8, 255, 255, 255, 255, 176, 254, 186, 100, 1, 0, 0, 82, 28, 0, 0, 0, 0, 84, 96,
    0, 4, 76, 77, 84, 0, 43, 48, 54, 0, 10, 60, 43, 48, 54, 62, 45, 54, 10,
];

/// `Asia/Ust-Nera`.
#[verifier::opaque]
pub const ASIA_UST_MINUS_NERA: [u8; 771] = [
    84, 90, 105, 102, 50, 0, 0, 0, 0, 0, 0, 0, 0, 0, 0, 0, 0, 0, 0, 0, 0, 0, 0, 0, 0, 0, 0, 0, 0,
    0, 0, 0, 0, 0, 0, 0, 0, 0, 0, 1, 0, 0, 0, 1, 0, 0, 0, 0, 0, 0, 0, 84, 90, 105, 102, 50, 0, 0,
    0, 0, 0, 0, 0, 0, 0, 0, 0, 0, 0, 0, 0, 0, 0, 0, 0, 0, 0, 0, 0, 0, 0, 0, 0, 0, 0, 0, 66, 0, 0,
    0, 8, 0, 0, 0, 24, 255, 255, 255, 255, 161, 219, 221, 186, 255, 255, 255, 255, 181, 163, 197,
    0, 0, 0, 0, 0, 21, 39, 83, 112, 0, 0, 0, 0, 22, 24, 107, 192, 0, 0, 0, 0, 23, 8, 106, 208, 0,
    0, 0, 0, 23, 249, 159, 64, 0, 0, 0, 0, 24, 233, 158, 80, 0, 0, 0, 0, 25, 218, 210, 192, 0, 0,
    0, 0, 26, 204, 35, 80, 0, 0, 0, 0, 27, 188, 48, 112, 0, 0, 0, 0, 28, 172, 33, 112, 0, 0, 0, 0,
    29, 156, 18, 112, 0, 0, 0, 0, 30, 140, 3, 112, 0, 0, 0, 0, 31, 123, 244, 112, 0, 0, 0, 0, 32,
    107, 229, 112, 0, 0, 0, 0, 33, 91, 214, 112, 0, 0, 0, 0, 34, 75, 199, 112, 0, 0, 0, 0, 35, 59,
    184, 112, 0, 0, 0, 0, 36, 43, 169, 112, 0, 0, 0, 0, 37, 27, 154, 112, 0, 0, 0, 0, 38, 11, 139,
    112, 0, 0, 0, 0, 39, 4, 182, 240, 0, 0, 0, 0, 39, 244, 167, 240, 0, 0, 0, 0, 40, 228, 167, 0,
    0, 0, 0, 0, 41, 120, 79, 0, 0, 0, 0, 0, 41, 212, 137, 240, 0, 0, 0, 0, 42, 196, 122, 240, 0,
    0, 0, 0, 43, 180, 107, 240, 0, 0, 0, 0, 44, 164, 92, 240, 0, 0, 0, 0, 45, 148, 77, 240, 0, 0,
    0, 0, 46, 132, 62, 240, 0, 0, 0, 0, 47, 116, 47, 240, 0, 0, 0, 0, 48, 100, 32, 240, 0, 0, 0,
    0, 49, 93, 76, 112, 0, 0, 0, 0, 50, 114, 39, 112, 0, 0, 0, 0, 51, 61, 46, 112, 0, 0, 0, 0, 52,
    82, 9, 112, 0, 0, 0, 0, 53, 29, 16, 112, 0, 0, 0, 0, 54, 49, 235, 112, 0, 0, 0, 0, 54, 252,
    242, 112, 0, 0, 0, 0, 56, 27, 7, 240, 0, 0, 0, 0, 56, 220, 212, 112, 0, 0, 0, 0, 57, 250, 233,
    240, 0, 0, 0, 0, 58, 188, 182, 112, 0, 0, 0, 0, 59, 218, 203, 240, 0, 0, 0, 0, 60, 165, 210,
    240, 0, 0, 0, 0, 61, 186, 173, 240, 0, 0, 0, 0, 62, 133, 180, 240, 0, 0, 0, 0, 63, 154, 143,
    240, 0, 0, 0, 0, 64, 101, 150, 240, 0, 0, 0, 0, 65, 131, 172, 112, 0, 0, 0, 0, 66, 69, 120,
    240, 0, 0, 0, 0, 67, 99, 142, 112, 0, 0, 0, 0, 68, 37, 90, 240, 0, 0, 0, 0, 69, 67, 112, 112,
    0, 0, 0, 0, 70, 5, 60, 240, 0, 0, 0, 0, 71, 35, 82, 112, 0, 0, 0, 0, 71, 238, 89, 112, 0, 0,
    0, 0, 73, 3, 52, 112, 0, 0, 0, 0, 73, 206, 59, 112, 0, 0, 0, 0, 74, 227, 22, 112, 0, 0, 0, 0,
    75, 174, 29, 112, 0, 0, 0, 0, 76, 204, 50, 240, 0, 0, 0, 0, 77, 141, 255, 112, 0, 0, 0, 0, 78,
    109, 244, 64, 0, 0, 0, 0, 84, 75, 186, 240, 1, 2, 4, 3, 4, 3, 4, 3, 4, 3, 4, 3, 4, 3, 4, 3, 4,
    3, 4, 3, 4, 3, 5, 6, 3, 4, 3, 4, 3, 4, 3, 4, 3, 4, 3, 4, 3, 4, 3, 4, 3, 4, 3, 4, 3, 4, 3, 4,
    3, 4, 3, 4, 3, 4, 3, 4, 3, 4, 3, 4, 3, 4, 3, 7, 3, 6, 0, 0, 134, 70, 0, 0, 0, 0, 112, 128, 0,
    4, 0, 0, 126, 144, 0, 8, 0, 0, 154, 176, 0, 12, 0, 0, 168, 192, 1, 16, 0, 0, 154, 176, 1, 12,
    0, 0, 140, 160, 0, 20, 0, 0, 168, 192, 0, 16, 76, 77, 84, 0, 43, 48, 56, 0, 43, 48, 57, 0, 43,
    49, 49, 0, 43, 49, 50, 0, 43, 49, 48, 0, 10, 60, 43, 49, 48, 62, 45, 49, 48, 10,
];

/// `Asia/Vladivostok`.
#[verifier::opaque]
pub const ASIA_VLADIVOSTOK: [u8; 742] = [
    84, 90, 105, 102, 50, 0, 0, 0, 0, 0, 0, 0, 0, 0, 0, 0, 0, 0, 0, 0, 0, 0, 0, 0, 0, 0, 0, 0, 0,
    0, 0, 0, 0, 0, 0, 0, 0, 0, 0, 1, 0, 0, 0, 1, 0, 0, 0, 0, 0, 0, 0, 84, 90, 105, 102, 50, 0, 0,
    0, 0, 0, 0, 0, 0, 0, 0, 0, 0, 0, 0, 0, 0, 0, 0, 0, 0, 0, 0, 0, 0, 0, 0, 0, 0, 0, 0, 65, 0, 0,
    0, 6, 0, 0, 0, 16, 255, 255, 255, 255, 167, 89, 71, 93, 255, 255, 255, 255, 181, 163, 182,
    240, 0, 0, 0, 0, 21, 39, 69, 96, 0, 0, 0, 0, 22, 24, 121, 208, 0, 0, 0, 0, 23, 8, 120, 224, 0,
    0, 0, 0, 23, 249, 173, 80, 0, 0, 0, 0, 24, 233, 172, 96, 0, 0, 0, 0, 25, 218, 224, 208, 0, 0,
    0, 0, 26, 204, 49, 96, 0, 0, 0, 0, 27, 188, 62, 128, 0, 0, 0, 0, 28, 172, 47, 128, 0, 0, 0, 0,
    29, 156, 32, 128, 0, 0, 0, 0, 30, 140, 17, 128, 0, 0, 0, 0, 31, 124, 2, 128, 0, 0, 0, 0, 32,
    107, 243, 128, 0, 0, 0, 0, 33, 91, 228, 128, 0, 0, 0, 0, 34, 75, 213, 128, 0, 0, 0, 0, 35, 59,
    198, 128, 0, 0, 0, 0, 36, 43, 183, 128, 0, 0, 0, 0, 37, 27, 168, 128, 0, 0, 0, 0, 38, 11, 153,
    128, 0, 0, 0, 0, 39, 4, 197, 0, 0, 0, 0, 0, 39, 244, 182, 0, 0, 0, 0, 0, 40, 228, 181, 16, 0,
    0, 0, 0, 41, 120, 93, 16, 0, 0, 0, 0, 41, 212, 152, 0, 0, 0, 0, 0, 42, 196, 137, 0, 0, 0, 0,
    0, 43, 180, 122, 0, 0, 0, 0, 0, 44, 164, 107, 0, 0, 0, 0, 0, 45, 148, 92, 0, 0, 0, 0, 0, 46,
    132, 77, 0, 0, 0, 0, 0, 47, 116, 62, 0, 0, 0, 0, 0, 48, 100, 47, 0, 0, 0, 0, 0, 49, 93, 90,
    128, 0, 0, 0, 0, 50, 114, 53, 128, 0, 0, 0, 0, 51, 61, 60, 128, 0, 0, 0, 0, 52, 82, 23, 128,
    0, 0, 0, 0, 53, 29, 30, 128, 0, 0, 0, 0, 54, 49, 249, 128, 0, 0, 0, 0, 54, 253, 0, 128, 0, 0,
    0, 0, 56, 27, 22, 0, 0, 0, 0, 0, 56, 220, 226, 128, 0, 0, 0, 0, 57, 250, 248, 0, 0, 0, 0, 0,
    58, 188, 196, 128, 0, 0, 0, 0, 59, 218, 218, 0, 0, 0, 0, 0, 60, 165, 225, 0, 0, 0, 0, 0, 61,
    186, 188, 0, 0, 0, 0, 0, 62, 133, 195, 0, 0, 0, 0, 0, 63, 154, 158, 0, 0, 0, 0, 0, 64, 101,
    165, 0, 0, 0, 0, 0, 65, 131, 186, 128, 0, 0, 0, 0, 66, 69, 135, 0, 0, 0, 0, 0, 67, 99, 156,
    128, 0, 0, 0, 0, 68, 37, 105, 0, 0, 0, 0, 0, 69, 67, 126, 128, 0, 0, 0, 0, 70, 5, 75, 0, 0, 0,
    0, 0, 71, 35, 96, 128, 0, 0, 0, 0, 71, 238, 103, 128, 0, 0, 0, 0, 73, 3, 66, 128, 0, 0, 0, 0,
    73, 206, 73, 128, 0, 0, 0, 0, 74, 227, 36, 128, 0, 0, 0, 0, 75, 174, 43, 128, 0, 0, 0, 0, 76,
    204, 65, 0, 0, 0, 0, 0, 77, 142, 13, 128, 0, 0, 0, 0, 84, 75, 186, 240, 1, 3, 2, 3, 2, 3, 2,
    3, 2, 3, 2, 3, 2, 3, 2, 3, 2, 3, 2, 3, 2, 3, 4, 1, 3, 2, 3, 2, 3, 2, 3, 2, 3, 2, 3, 2, 3, 2,
    3, 2, 3, 2, 3, 2, 3, 2, 3, 2, 3, 2, 3, 2, 3, 2, 3, 2, 3, 2, 3, 2, 3, 2, 3, 5, 3, 0, 0, 123,
    163, 0, 0, 0, 0, 126, 144, 0, 4, 0, 0, 154, 176, 1, 8, 0, 0, 140, 160, 0, 12, 0, 0, 140, 160,
    1, 12, 0, 0, 154, 176, 0, 8, 76, 77, 84, 0, 43, 48, 57, 0, 43, 49, 49, 0, 43, 49, 48, 0, 10,
    60, 43, 49, 48, 62, 45, 49, 48, 10,
];

/// `Asia/Yakutsk`.
#[verifier::opaque]
pub const ASIA_YAKUTSK: [u8; 741] = [
    84, 90, 105, 102, 50, 0, 0, 0, 0, 0, 0, 0, 0, 0, 0, 0, 0, 0, 0, 0, 0, 0, 0, 0, 0, 0, 0, 0, 0,
    0, 0, 0, 0, 0, 0, 0, 0, 0, 0, 1, 0, 0, 0, 1, 0, 0, 0, 0, 0, 0, 0, 84, 90, 105, 102, 50, 0, 0,
    0, 0, 0, 0, 0, 0, 0, 0, 0, 0, 0, 0, 0, 0, 0, 0, 0, 0, 0, 0, 0, 0, 0, 0, 0, 0, 0, 0, 65, 0, 0,
    0, 6, 0, 0, 0, 16, 255, 255, 255, 255, 161, 219, 234, 94, 255, 255, 255, 255, 181, 163, 197,
    0, 0, 0, 0, 0, 21, 39, 83, 112, 0, 0, 0, 0, 22, 24, 135, 224, 0, 0, 0, 0, 23, 8, 134, 240, 0,
    0, 0, 0, 23, 249, 187, 96, 0, 0, 0, 0, 24, 233, 186, 112, 0, 0, 0, 0, 25, 218, 238, 224, 0, 0,
    0, 0, 26, 204, 63, 112, 0, 0, 0, 0, 27, 188, 76, 144, 0, 0, 0, 0, 28, 172, 61, 144, 0, 0, 0,
    0, 29, 156, 46, 144, 0, 0, 0, 0, 30, 140, 31, 144, 0, 0, 0, 0, 31, 124, 16, 144, 0, 0, 0, 0,
    32, 108, 1, 144, 0, 0, 0, 0, 33, 91, 242, 144, 0, 0, 0, 0, 34, 75, 227, 144, 0, 0, 0, 0, 35,
    59, 212, 144, 0, 0, 0, 0, 36, 43, 197, 144, 0, 0, 0, 0, 37, 27, 182, 144, 0, 0, 0, 0, 38, 11,
    167, 144, 0, 0, 0, 0, 39, 4, 211, 16, 0, 0, 0, 0, 39, 244, 196, 16, 0, 0, 0, 0, 40, 228, 195,
    32, 0, 0, 0, 0, 41, 120, 107, 32, 0, 0, 0, 0, 41, 212, 166, 16, 0, 0, 0, 0, 42, 196, 151, 16,
    0, 0, 0, 0, 43, 180, 136, 16, 0, 0, 0, 0, 44, 164, 121, 16, 0, 0, 0, 0, 45, 148, 106, 16, 0,
    0, 0, 0, 46, 132, 91, 16, 0, 0, 0, 0, 47, 116, 76, 16, 0, 0, 0, 0, 48, 100, 61, 16, 0, 0, 0,
    0, 49, 93, 104, 144, 0, 0, 0, 0, 50, 114, 67, 144, 0, 0, 0, 0, 51, 61, 74, 144, 0, 0, 0, 0,
    52, 82, 37, 144, 0, 0, 0, 0, 53, 29, 44, 144, 0, 0, 0, 0, 54, 50, 7, 144, 0, 0, 0, 0, 54, 253,
    14, 144, 0, 0, 0, 0, 56, 27, 36, 16, 0, 0, 0, 0, 56, 220, 240, 144, 0, 0, 0, 0, 57, 251, 6,
    16, 0, 0, 0, 0, 58, 188, 210, 144, 0, 0, 0, 0, 59, 218, 232, 16, 0, 0, 0, 0, 60, 165, 239, 16,
    0, 0, 0, 0, 61, 186, 202, 16, 0, 0, 0, 0, 62, 133, 209, 16, 0, 0, 0, 0, 63, 154, 172, 16, 0,
    0, 0, 0, 64, 101, 179, 16, 0, 0, 0, 0, 65, 131, 200, 144, 0, 0, 0, 0, 66, 69, 149, 16, 0, 0,
    0, 0, 67, 99, 170, 144, 0, 0, 0, 0, 68, 37, 119, 16, 0, 0, 0, 0, 69, 67, 140, 144, 0, 0, 0, 0,
    70, 5, 89, 16, 0, 0, 0, 0, 71, 35, 110, 144, 0, 0, 0, 0, 71, 238, 117, 144, 0, 0, 0, 0, 73, 3,
    80, 144, 0, 0, 0, 0, 73, 206, 87, 144, 0, 0, 0, 0, 74, 227, 50, 144, 0, 0, 0, 0, 75, 174, 57,
    144, 0, 0, 0, 0, 76, 204, 79, 16, 0, 0, 0, 0, 77, 142, 27, 144, 0, 0, 0, 0, 84, 75, 201, 0, 1,
    3, 2, 3, 2, 3, 2, 3, 2, 3, 2, 3, 2, 3, 2, 3, 2, 3, 2, 3, 2, 3, 4, 1, 3, 2, 3, 2, 3, 2, 3, 2,
    3, 2, 3, 2, 3, 2, 3, 2, 3, 2, 3, 2, 3, 2, 3, 2, 3, 2, 3, 2, 3, 2, 3, 2, 3, 2, 3, 2, 3, 2, 3,
    5, 3, 0, 0, 121, 162, 0, 0, 0, 0, 112, 128, 0, 4, 0, 0, 140, 160, 1, 8, 0, 0, 126, 144, 0, 12,
    0, 0, 126, 144, 1, 12, 0, 0, 140, 160, 0, 8, 76, 77, 84, 0, 43, 48, 56, 0, 43, 49, 48, 0, 43,
    48, 57, 0, 10, 60, 43, 48, 57, 62, 45, 57, 10,
];

/// `Asia/Yangon`.
#[verifier::opaque]
pub const ASIA_YANGON: [u8; 187] = [
    84, 90, 105, 102, 50, 0, 0, 0, 0, 0, 0, 0, 0, 0, 0, 0, 0, 0, 0, 0, 0, 0, 0, 0, 0, 0, 0, 0, 0,
    0, 0, 0, 0, 0, 0, 0, 0, 0, 0, 1, 0, 0, 0, 1, 0, 0, 0, 0, 0, 0, 0, 84, 90, 105, 102, 50, 0, 0,
    0, 0, 0, 0, 0, 0, 0, 0, 0, 0, 0, 0, 0, 0, 0, 0, 0, 0, 0, 0, 0, 0, 0, 0, 0, 0, 0, 0, 4, 0, 0,
    0, 4, 0, 0, 0, 18, 255, 255, 255, 255, 86, 182, 137, 209, 255, 255, 255, 255, 161, 242, 115,
    81, 255, 255, 255, 255, 203, 242, 252, 24, 255, 255, 255, 255, 209, 154, 103, 240, 1, 2, 3, 2,
    0, 0, 90, 47, 0, 0, 0, 0, 90, 47, 0, 4, 0, 0, 91, 104, 0, 8, 0, 0, 126, 144, 0, 14, 76, 77,
    84, 0, 82, 77, 84, 0, 43, 48, 54, 51, 48, 0, 43, 48, 57, 0, 10, 60, 43, 48, 54, 51, 48, 62,
    45, 54, 58, 51, 48, 10,
];

/// `Asia/Yekaterinburg`.
#[verifier::opaque]
pub const ASIA_YEKATERINBURG: [u8; 760] = [
    84, 90, 105, 102, 50, 0, 0, 0, 0, 0, 0, 0, 0, 0, 0, 0, 0, 0, 0, 0, 0, 0, 0, 0, 0, 0, 0, 0, 0,
    0, 0, 0, 0, 0, 0, 0, 0, 0, 0, 1, 0, 0, 0, 1, 0, 0, 0, 0, 0, 0, 0, 84, 90, 105, 102, 50, 0, 0,
    0, 0, 0, 0, 0, 0, 0, 0, 0, 0, 0, 0, 0, 0, 0, 0, 0, 0, 0, 0, 0, 0, 0, 0, 0, 0, 0, 0, 66, 0, 0,
    0, 7, 0, 0, 0, 20, 255, 255, 255, 255, 155, 95, 9, 39, 255, 255, 255, 255, 161, 18, 177, 255,
    255, 255, 255, 255, 181, 163, 253, 64, 0, 0, 0, 0, 21, 39, 139, 176, 0, 0, 0, 0, 22, 24, 192,
    32, 0, 0, 0, 0, 23, 8, 191, 48, 0, 0, 0, 0, 23, 249, 243, 160, 0, 0, 0, 0, 24, 233, 242, 176,
    0, 0, 0, 0, 25, 219, 39, 32, 0, 0, 0, 0, 26, 204, 119, 176, 0, 0, 0, 0, 27, 188, 132, 208, 0,
    0, 0, 0, 28, 172, 117, 208, 0, 0, 0, 0, 29, 156, 102, 208, 0, 0, 0, 0, 30, 140, 87, 208, 0, 0,
    0, 0, 31, 124, 72, 208, 0, 0, 0, 0, 32, 108, 57, 208, 0, 0, 0, 0, 33, 92, 42, 208, 0, 0, 0, 0,
    34, 76, 27, 208, 0, 0, 0, 0, 35, 60, 12, 208, 0, 0, 0, 0, 36, 43, 253, 208, 0, 0, 0, 0, 37,
    27, 238, 208, 0, 0, 0, 0, 38, 11, 223, 208, 0, 0, 0, 0, 39, 5, 11, 80, 0, 0, 0, 0, 39, 244,
    252, 80, 0, 0, 0, 0, 40, 228, 251, 96, 0, 0, 0, 0, 41, 120, 163, 96, 0, 0, 0, 0, 41, 212, 222,
    80, 0, 0, 0, 0, 42, 196, 207, 80, 0, 0, 0, 0, 43, 180, 192, 80, 0, 0, 0, 0, 44, 164, 177, 80,
    0, 0, 0, 0, 45, 148, 162, 80, 0, 0, 0, 0, 46, 132, 147, 80, 0, 0, 0, 0, 47, 116, 132, 80, 0,
    0, 0, 0, 48, 100, 117, 80, 0, 0, 0, 0, 49, 93, 160, 208, 0, 0, 0, 0, 50, 114, 123, 208, 0, 0,
    0, 0, 51, 61, 130, 208, 0, 0, 0, 0, 52, 82, 93, 208, 0, 0, 0, 0, 53, 29, 100, 208, 0, 0, 0, 0,
    54, 50, 63, 208, 0, 0, 0, 0, 54, 253, 70, 208, 0, 0, 0, 0, 56, 27, 92, 80, 0, 0, 0, 0, 56,
    221, 40, 208, 0, 0, 0, 0, 57, 251, 62, 80, 0, 0, 0, 0, 58, 189, 10, 208, 0, 0, 0, 0, 59, 219,
    32, 80, 0, 0, 0, 0, 60, 166, 39, 80, 0, 0, 0, 0, 61, 187, 2, 80, 0, 0, 0, 0, 62, 134, 9, 80,
    0, 0, 0, 0, 63, 154, 228, 80, 0, 0, 0, 0, 64, 101, 235, 80, 0, 0, 0, 0, 65, 132, 0, 208, 0, 0,
    0, 0, 66, 69, 205, 80, 0, 0, 0, 0, 67, 99, 226, 208, 0, 0, 0, 0, 68, 37, 175, 80, 0, 0, 0, 0,
    69, 67, 196, 208, 0, 0, 0, 0, 70, 5, 145, 80, 0, 0, 0, 0, 71, 35, 166, 208, 0, 0, 0, 0, 71,
    238, 173, 208, 0, 0, 0, 0, 73, 3, 136, 208, 0, 0, 0, 0, 73, 206, 143, 208, 0, 0, 0, 0, 74,
    227, 106, 208, 0, 0, 0, 0, 75, 174, 113, 208, 0, 0, 0, 0, 76, 204, 135, 80, 0, 0, 0, 0, 77,
    142, 83, 208, 0, 0, 0, 0, 84, 76, 1, 64, 1, 2, 4, 3, 4, 3, 4, 3, 4, 3, 4, 3, 4, 3, 4, 3, 4, 3,
    4, 3, 4, 3, 4, 5, 2, 4, 3, 4, 3, 4, 3, 4, 3, 4, 3, 4, 3, 4, 3, 4, 3, 4, 3, 4, 3, 4, 3, 4, 3,
    4, 3, 4, 3, 4, 3, 4, 3, 4, 3, 4, 3, 4, 3, 4, 6, 4, 0, 0, 56, 217, 0, 0, 0, 0, 52, 193, 0, 4,
    0, 0, 56, 64, 0, 8, 0, 0, 84, 96, 1, 12, 0, 0, 70, 80, 0, 16, 0, 0, 70, 80, 1, 16, 0, 0, 84,
    96, 0, 12, 76, 77, 84, 0, 80, 77, 84, 0, 43, 48, 52, 0, 43, 48, 54, 0, 43, 48, 53, 0, 10, 60,
    43, 48, 53, 62, 45, 53, 10,
];

/// `Asia/Yerevan`.
#[verifier::opaque]
pub const ASIA_YEREVAN: [u8; 708] = [
    84, 90, 105, 102, 50, 0, 0, 0, 0, 0, 0, 0, 0, 0, 0, 0, 0, 0, 0, 0, 0, 0, 0, 0, 0, 0, 0, 0, 0,
    0, 0, 0, 0, 0, 0, 0, 0, 0, 0, 1, 0, 0, 0, 1, 0, 0, 0, 0, 0, 0, 0, 84, 90, 105, 102, 50, 0, 0,
    0, 0, 0, 0, 0, 0, 0, 0, 0, 0, 0, 0, 0, 0, 0, 0, 0, 0, 0, 0, 0, 0, 0, 0, 0, 0, 0, 0, 62, 0, 0,
    0, 5, 0, 0, 0, 16, 255, 255, 255, 255, 170, 25, 154, 72, 255, 255, 255, 255, 231, 218, 12, 80,
    0, 0, 0, 0, 21, 39, 153, 192, 0, 0, 0, 0, 22, 24, 206, 48, 0, 0, 0, 0, 23, 8, 205, 64, 0, 0,
    0, 0, 23, 250, 1, 176, 0, 0, 0, 0, 24, 234, 0, 192, 0, 0, 0, 0, 25, 219, 53, 48, 0, 0, 0, 0,
    26, 204, 133, 192, 0, 0, 0, 0, 27, 188, 146, 224, 0, 0, 0, 0, 28, 172, 131, 224, 0, 0, 0, 0,
    29, 156, 116, 224, 0, 0, 0, 0, 30, 140, 101, 224, 0, 0, 0, 0, 31, 124, 86, 224, 0, 0, 0, 0,
    32, 108, 71, 224, 0, 0, 0, 0, 33, 92, 56, 224, 0, 0, 0, 0, 34, 76, 41, 224, 0, 0, 0, 0, 35,
    60, 26, 224, 0, 0, 0, 0, 36, 44, 11, 224, 0, 0, 0, 0, 37, 27, 252, 224, 0, 0, 0, 0, 38, 11,
    237, 224, 0, 0, 0, 0, 39, 5, 25, 96, 0, 0, 0, 0, 39, 245, 10, 96, 0, 0, 0, 0, 40, 229, 9, 112,
    0, 0, 0, 0, 41, 212, 250, 112, 0, 0, 0, 0, 42, 196, 235, 112, 0, 0, 0, 0, 43, 180, 220, 112,
    0, 0, 0, 0, 44, 164, 205, 112, 0, 0, 0, 0, 45, 148, 190, 112, 0, 0, 0, 0, 46, 132, 175, 112,
    0, 0, 0, 0, 47, 116, 160, 112, 0, 0, 0, 0, 48, 100, 145, 112, 0, 0, 0, 0, 51, 61, 144, 224, 0,
    0, 0, 0, 52, 82, 107, 224, 0, 0, 0, 0, 53, 29, 114, 224, 0, 0, 0, 0, 54, 50, 77, 224, 0, 0, 0,
    0, 54, 253, 84, 224, 0, 0, 0, 0, 56, 27, 106, 96, 0, 0, 0, 0, 56, 221, 54, 224, 0, 0, 0, 0,
    57, 251, 76, 96, 0, 0, 0, 0, 58, 189, 24, 224, 0, 0, 0, 0, 59, 219, 46, 96, 0, 0, 0, 0, 60,
    166, 53, 96, 0, 0, 0, 0, 61, 187, 16, 96, 0, 0, 0, 0, 62, 134, 23, 96, 0, 0, 0, 0, 63, 154,
    242, 96, 0, 0, 0, 0, 64, 101, 249, 96, 0, 0, 0, 0, 65, 132, 14, 224, 0, 0, 0, 0, 66, 69, 219,
    96, 0, 0, 0, 0, 67, 99, 240, 224, 0, 0, 0, 0, 68, 37, 189, 96, 0, 0, 0, 0, 69, 67, 210, 224,
    0, 0, 0, 0, 70, 5, 159, 96, 0, 0, 0, 0, 71, 35, 180, 224, 0, 0, 0, 0, 71, 238, 187, 224, 0, 0,
    0, 0, 73, 3, 150, 224, 0, 0, 0, 0, 73, 206, 157, 224, 0, 0, 0, 0, 74, 227, 120, 224, 0, 0, 0,
    0, 75, 174, 127, 224, 0, 0, 0, 0, 76, 204, 149, 96, 0, 0, 0, 0, 77, 142, 97, 224, 0, 0, 0, 0,
    78, 172, 119, 96, 1, 3, 2, 3, 2, 3, 2, 3, 2, 3, 2, 3, 2, 3, 2, 3, 2, 3, 2, 3, 2, 3, 4, 1, 4,
    1, 4, 1, 4, 1, 4, 3, 2, 3, 2, 3, 2, 3, 2, 3, 2, 3, 2, 3, 2, 3, 2, 3, 2, 3, 2, 3, 2, 3, 2, 3,
    2, 3, 2, 3, 2, 3, 0, 0, 41, 184, 0, 0, 0, 0, 42, 48, 0, 4, 0, 0, 70, 80, 1, 8, 0, 0, 56, 64,
    0, 12, 0, 0, 56, 64, 1, 12, 76, 77, 84, 0, 43, 48, 51, 0, 43, 48, 53, 0, 43, 48, 52, 0, 10,
    60, 43, 48, 52, 62, 45, 52, 10,
];

/// `Atlantic/Azores`.
#[verifier::opaque]
pub const ATLANTIC_AZORES: [u8; 1401] = [
    84, 90, 105, 102, 50, 0, 0, 0, 0, 0, 0, 0, 0, 0, 0, 0, 0, 0, 0, 0, 0, 0, 0, 0, 0, 0, 0, 0, 0,
    0, 0, 0, 0, 0, 0, 0, 0, 0, 0, 1, 0, 0, 0, 1, 0, 0, 0, 0, 0, 0, 0, 84, 90, 105, 102, 50, 0, 0,
    0, 0, 0, 0, 0, 0, 0, 0, 0, 0, 0, 0, 0, 0, 0, 0, 0, 0, 0, 0, 0, 0, 0, 0, 0, 0, 0, 0, 133, 0, 0,
    0, 8, 0, 0, 0, 29, 255, 255, 255, 255, 94, 61, 27, 144, 255, 255, 255, 255, 146, 230, 170,
    160, 255, 255, 255, 255, 155, 75, 137, 144, 255, 255, 255, 255, 155, 254, 227, 160, 255, 255,
    255, 255, 156, 157, 23, 160, 255, 255, 255, 255, 157, 201, 159, 144, 255, 255, 255, 255, 158,
    126, 75, 32, 255, 255, 255, 255, 159, 170, 211, 16, 255, 255, 255, 255, 160, 95, 126, 160,
    255, 255, 255, 255, 161, 140, 6, 144, 255, 255, 255, 255, 162, 66, 3, 160, 255, 255, 255, 255,
    163, 110, 139, 144, 255, 255, 255, 255, 164, 35, 55, 32, 255, 255, 255, 255, 165, 79, 191, 16,
    255, 255, 255, 255, 170, 6, 11, 144, 255, 255, 255, 255, 170, 231, 124, 16, 255, 255, 255,
    255, 173, 201, 196, 16, 255, 255, 255, 255, 174, 167, 64, 16, 255, 255, 255, 255, 175, 160,
    107, 144, 255, 255, 255, 255, 176, 135, 34, 16, 255, 255, 255, 255, 177, 137, 136, 16, 255,
    255, 255, 255, 178, 112, 62, 144, 255, 255, 255, 255, 179, 114, 164, 144, 255, 255, 255, 255,
    180, 80, 32, 144, 255, 255, 255, 255, 183, 50, 104, 144, 255, 255, 255, 255, 184, 15, 228,
    144, 255, 255, 255, 255, 184, 255, 213, 144, 255, 255, 255, 255, 185, 239, 198, 144, 255, 255,
    255, 255, 188, 200, 212, 16, 255, 255, 255, 255, 189, 184, 197, 16, 255, 255, 255, 255, 190,
    159, 123, 144, 255, 255, 255, 255, 191, 152, 167, 16, 255, 255, 255, 255, 192, 155, 13, 16,
    255, 255, 255, 255, 193, 120, 137, 16, 255, 255, 255, 255, 194, 104, 122, 16, 255, 255, 255,
    255, 195, 88, 107, 16, 255, 255, 255, 255, 196, 63, 33, 144, 255, 255, 255, 255, 197, 56, 77,
    16, 255, 255, 255, 255, 198, 58, 179, 16, 255, 255, 255, 255, 199, 88, 200, 144, 255, 255,
    255, 255, 199, 217, 251, 144, 255, 255, 255, 255, 201, 3, 238, 144, 255, 255, 255, 255, 201,
    241, 60, 144, 255, 255, 255, 255, 202, 226, 127, 16, 255, 255, 255, 255, 203, 181, 111, 16,
    255, 255, 255, 255, 203, 236, 192, 0, 255, 255, 255, 255, 204, 128, 104, 0, 255, 255, 255,
    255, 204, 220, 191, 16, 255, 255, 255, 255, 205, 149, 81, 16, 255, 255, 255, 255, 205, 195,
    103, 128, 255, 255, 255, 255, 206, 114, 191, 0, 255, 255, 255, 255, 206, 197, 219, 144, 255,
    255, 255, 255, 207, 117, 51, 16, 255, 255, 255, 255, 207, 172, 132, 0, 255, 255, 255, 255,
    208, 82, 161, 0, 255, 255, 255, 255, 208, 165, 189, 144, 255, 255, 255, 255, 209, 85, 21, 16,
    255, 255, 255, 255, 209, 140, 102, 0, 255, 255, 255, 255, 210, 50, 131, 0, 255, 255, 255, 255,
    210, 133, 159, 144, 255, 255, 255, 255, 211, 89, 225, 16, 255, 255, 255, 255, 212, 73, 210,
    16, 255, 255, 255, 255, 213, 57, 237, 64, 255, 255, 255, 255, 214, 41, 222, 64, 255, 255, 255,
    255, 215, 25, 207, 64, 255, 255, 255, 255, 216, 9, 192, 64, 255, 255, 255, 255, 216, 249, 177,
    64, 255, 255, 255, 255, 217, 233, 162, 64, 255, 255, 255, 255, 218, 217, 147, 64, 255, 255,
    255, 255, 219, 201, 132, 64, 255, 255, 255, 255, 220, 185, 117, 64, 255, 255, 255, 255, 221,
    178, 160, 192, 255, 255, 255, 255, 222, 162, 145, 192, 255, 255, 255, 255, 223, 146, 130, 192,
    255, 255, 255, 255, 224, 130, 115, 192, 255, 255, 255, 255, 225, 114, 100, 192, 255, 255, 255,
    255, 226, 98, 85, 192, 255, 255, 255, 255, 227, 82, 70, 192, 255, 255, 255, 255, 228, 66, 55,
    192, 255, 255, 255, 255, 229, 50, 40, 192, 255, 255, 255, 255, 230, 34, 25, 192, 255, 255,
    255, 255, 231, 27, 69, 64, 255, 255, 255, 255, 232, 11, 54, 64, 255, 255, 255, 255, 232, 251,
    39, 64, 255, 255, 255, 255, 233, 235, 24, 64, 255, 255, 255, 255, 234, 219, 9, 64, 255, 255,
    255, 255, 235, 202, 250, 64, 255, 255, 255, 255, 236, 186, 235, 64, 255, 255, 255, 255, 237,
    170, 220, 64, 255, 255, 255, 255, 238, 154, 205, 64, 255, 255, 255, 255, 239, 138, 190, 64,
    255, 255, 255, 255, 240, 122, 175, 64, 255, 255, 255, 255, 241, 106, 160, 64, 255, 255, 255,
    255, 242, 99, 203, 192, 255, 255, 255, 255, 243, 83, 188, 192, 255, 255, 255, 255, 244, 67,
    173, 192, 255, 255, 255, 255, 245, 51, 158, 192, 255, 255, 255, 255, 246, 35, 143, 192, 255,
    255, 255, 255, 247, 19, 128, 192, 255, 255, 255, 255, 248, 3, 113, 192, 255, 255, 255, 255,
    248, 243, 98, 192, 255, 255, 255, 255, 249, 227, 83, 192, 0, 0, 0, 0, 23, 3, 205, 144, 0, 0,
    0, 0, 23, 243, 190, 144, 0, 0, 0, 0, 24, 227, 175, 144, 0, 0, 0, 0, 25, 211, 160, 144, 0, 0,
    0, 0, 26, 195, 145, 144, 0, 0, 0, 0, 27, 188, 189, 16, 0, 0, 0, 0, 28, 172, 174, 16, 0, 0, 0,
    0, 29, 156, 159, 16, 0, 0, 0, 0, 30, 140, 144, 16, 0, 0, 0, 0, 31, 124, 129, 16, 0, 0, 0, 0,
    32, 108, 114, 16, 0, 0, 0, 0, 33, 92, 99, 16, 0, 0, 0, 0, 34, 76, 84, 16, 0, 0, 0, 0, 35, 60,
    69, 16, 0, 0, 0, 0, 36, 44, 54, 16, 0, 0, 0, 0, 37, 28, 39, 16, 0, 0, 0, 0, 38, 12, 24, 16, 0,
    0, 0, 0, 39, 5, 67, 144, 0, 0, 0, 0, 39, 245, 52, 144, 0, 0, 0, 0, 40, 229, 37, 144, 0, 0, 0,
    0, 41, 213, 22, 144, 0, 0, 0, 0, 42, 197, 7, 144, 0, 0, 0, 0, 43, 61, 14, 32, 0, 0, 0, 0, 43,
    180, 248, 144, 0, 0, 0, 0, 44, 31, 194, 16, 0, 0, 0, 0, 44, 164, 233, 144, 0, 0, 0, 0, 45,
    148, 218, 144, 0, 0, 0, 0, 46, 132, 203, 144, 0, 0, 0, 0, 47, 116, 188, 144, 0, 0, 0, 0, 48,
    100, 173, 144, 0, 0, 0, 0, 49, 93, 217, 16, 1, 3, 2, 3, 2, 3, 2, 3, 2, 3, 2, 3, 2, 3, 2, 3, 2,
    3, 2, 3, 2, 3, 2, 3, 2, 3, 2, 3, 2, 3, 2, 3, 2, 3, 2, 3, 2, 3, 2, 3, 2, 3, 2, 3, 2, 4, 2, 3,
    2, 4, 2, 3, 2, 4, 2, 3, 2, 4, 2, 3, 2, 3, 2, 3, 2, 3, 2, 3, 2, 3, 2, 3, 2, 3, 2, 3, 2, 3, 2,
    3, 2, 3, 2, 3, 2, 3, 2, 3, 2, 3, 2, 3, 2, 3, 2, 3, 2, 3, 2, 3, 2, 5, 4, 5, 4, 5, 4, 5, 4, 5,
    4, 5, 4, 5, 4, 5, 4, 5, 4, 5, 4, 5, 4, 5, 7, 6, 4, 5, 4, 5, 4, 5, 4, 255, 255, 231, 240, 0, 0,
    255, 255, 229, 40, 0, 4, 255, 255, 241, 240, 1, 8, 255, 255, 227, 224, 0, 12, 0, 0, 0, 0, 1,
    16, 255, 255, 241, 240, 0, 8, 0, 0, 14, 16, 1, 20, 0, 0, 0, 0, 0, 25, 76, 77, 84, 0, 72, 77,
    84, 0, 45, 48, 49, 0, 45, 48, 50, 0, 43, 48, 48, 0, 87, 69, 83, 84, 0, 87, 69, 84, 0, 10, 60,
    45, 48, 49, 62, 49, 60, 43, 48, 48, 62, 44, 77, 51, 46, 53, 46, 48, 47, 48, 44, 77, 49, 48,
    46, 53, 46, 48, 47, 49, 10,
];

/// `Atlantic/Bermuda`.
#[verifier::opaque]
pub const ATLANTIC_BERMUDA: [u8; 1024] = [
    84, 90, 105, 102, 50, 0, 0, 0, 0, 0, 0, 0, 0, 0, 0, 0, 0, 0, 0, 0, 0, 0, 0, 0, 0, 0, 0, 0, 0,
    0, 0, 0, 0, 0, 0, 0, 0, 0, 0, 1, 0, 0, 0, 1, 0, 0, 0, 0, 0, 0, 0, 84, 90, 105, 102, 50, 0, 0,
    0, 0, 0, 0, 0, 0, 0, 0, 0, 0, 0, 0, 0, 0, 0, 0, 0, 0, 0, 0, 0, 0, 0, 0, 0, 0, 0, 0, 95, 0, 0,
    0, 5, 0, 0, 0, 20, 255, 255, 255, 255, 105, 135, 24, 70, 255, 255, 255, 255, 156, 204, 174,
    70, 255, 255, 255, 255, 157, 183, 75, 54, 255, 255, 255, 255, 158, 184, 109, 198, 255, 255,
    255, 255, 159, 132, 184, 54, 255, 255, 255, 255, 180, 195, 29, 230, 255, 255, 255, 255, 203,
    98, 166, 224, 255, 255, 255, 255, 204, 211, 188, 208, 255, 255, 255, 255, 205, 158, 209, 224,
    255, 255, 255, 255, 206, 198, 19, 208, 255, 255, 255, 255, 207, 117, 121, 96, 255, 255, 255,
    255, 208, 175, 48, 80, 255, 255, 255, 255, 209, 85, 91, 96, 255, 255, 255, 255, 210, 143, 18,
    80, 255, 255, 255, 255, 213, 113, 104, 96, 255, 255, 255, 255, 214, 14, 60, 208, 255, 255,
    255, 255, 215, 90, 132, 224, 255, 255, 255, 255, 215, 228, 228, 80, 255, 255, 255, 255, 217,
    58, 102, 224, 255, 255, 255, 255, 217, 196, 198, 80, 255, 255, 255, 255, 219, 35, 131, 96,
    255, 255, 255, 255, 219, 164, 168, 80, 255, 255, 255, 255, 221, 3, 101, 96, 255, 255, 255,
    255, 221, 132, 138, 80, 255, 255, 255, 255, 222, 227, 71, 96, 255, 255, 255, 255, 223, 109,
    166, 208, 255, 255, 255, 255, 230, 108, 9, 224, 255, 255, 255, 255, 231, 55, 2, 208, 0, 0, 0,
    0, 8, 32, 179, 96, 0, 0, 0, 0, 9, 16, 150, 80, 0, 0, 0, 0, 10, 0, 149, 96, 0, 0, 0, 0, 10,
    240, 120, 80, 0, 0, 0, 0, 11, 224, 119, 96, 0, 0, 0, 0, 12, 217, 148, 208, 0, 0, 0, 0, 13,
    192, 89, 96, 0, 0, 0, 0, 14, 185, 118, 208, 0, 0, 0, 0, 15, 169, 117, 224, 0, 0, 0, 0, 16,
    153, 88, 208, 0, 0, 0, 0, 17, 137, 87, 224, 0, 0, 0, 0, 18, 121, 58, 208, 0, 0, 0, 0, 19, 105,
    57, 224, 0, 0, 0, 0, 20, 89, 28, 208, 0, 0, 0, 0, 21, 73, 27, 224, 0, 0, 0, 0, 22, 56, 254,
    208, 0, 0, 0, 0, 23, 40, 253, 224, 0, 0, 0, 0, 24, 34, 27, 80, 0, 0, 0, 0, 25, 8, 223, 224, 0,
    0, 0, 0, 26, 1, 253, 80, 0, 0, 0, 0, 26, 241, 252, 96, 0, 0, 0, 0, 27, 225, 223, 80, 0, 0, 0,
    0, 28, 209, 222, 96, 0, 0, 0, 0, 29, 193, 193, 80, 0, 0, 0, 0, 30, 177, 192, 96, 0, 0, 0, 0,
    31, 161, 163, 80, 0, 0, 0, 0, 32, 117, 242, 224, 0, 0, 0, 0, 33, 129, 133, 80, 0, 0, 0, 0, 34,
    85, 212, 224, 0, 0, 0, 0, 35, 106, 161, 208, 0, 0, 0, 0, 36, 53, 182, 224, 0, 0, 0, 0, 37, 74,
    131, 208, 0, 0, 0, 0, 38, 21, 152, 224, 0, 0, 0, 0, 39, 42, 101, 208, 0, 0, 0, 0, 39, 254,
    181, 96, 0, 0, 0, 0, 41, 10, 71, 208, 0, 0, 0, 0, 41, 222, 151, 96, 0, 0, 0, 0, 42, 234, 41,
    208, 0, 0, 0, 0, 43, 190, 121, 96, 0, 0, 0, 0, 44, 211, 70, 80, 0, 0, 0, 0, 45, 158, 91, 96,
    0, 0, 0, 0, 46, 179, 40, 80, 0, 0, 0, 0, 47, 126, 61, 96, 0, 0, 0, 0, 48, 147, 10, 80, 0, 0,
    0, 0, 49, 103, 89, 224, 0, 0, 0, 0, 50, 114, 236, 80, 0, 0, 0, 0, 51, 71, 59, 224, 0, 0, 0, 0,
    52, 82, 206, 80, 0, 0, 0, 0, 53, 39, 29, 224, 0, 0, 0, 0, 54, 50, 176, 80, 0, 0, 0, 0, 55, 6,
    255, 224, 0, 0, 0, 0, 56, 27, 204, 208, 0, 0, 0, 0, 56, 230, 225, 224, 0, 0, 0, 0, 57, 251,
    174, 208, 0, 0, 0, 0, 58, 198, 195, 224, 0, 0, 0, 0, 59, 219, 144, 208, 0, 0, 0, 0, 60, 175,
    224, 96, 0, 0, 0, 0, 61, 187, 114, 208, 0, 0, 0, 0, 62, 143, 194, 96, 0, 0, 0, 0, 63, 155, 84,
    208, 0, 0, 0, 0, 64, 111, 164, 96, 0, 0, 0, 0, 65, 132, 113, 80, 0, 0, 0, 0, 66, 79, 134, 96,
    0, 0, 0, 0, 67, 100, 83, 80, 0, 0, 0, 0, 68, 47, 104, 96, 0, 0, 0, 0, 69, 68, 53, 80, 0, 0, 0,
    0, 69, 243, 154, 224, 2, 1, 2, 1, 2, 4, 3, 4, 3, 4, 3, 4, 3, 4, 3, 4, 3, 4, 3, 4, 3, 4, 3, 4,
    3, 4, 3, 4, 3, 4, 3, 4, 3, 4, 3, 4, 3, 4, 3, 4, 3, 4, 3, 4, 3, 4, 3, 4, 3, 4, 3, 4, 3, 4, 3,
    4, 3, 4, 3, 4, 3, 4, 3, 4, 3, 4, 3, 4, 3, 4, 3, 4, 3, 4, 3, 4, 3, 4, 3, 4, 3, 4, 3, 4, 3, 4,
    3, 4, 3, 4, 3, 4, 3, 4, 3, 255, 255, 195, 58, 0, 0, 255, 255, 209, 74, 1, 4, 255, 255, 195,
    58, 0, 8, 255, 255, 213, 208, 1, 12, 255, 255, 199, 192, 0, 16, 76, 77, 84, 0, 66, 83, 84, 0,
    66, 77, 84, 0, 65, 68, 84, 0, 65, 83, 84, 0, 10, 65, 83, 84, 52, 65, 68, 84, 44, 77, 51, 46,
    50, 46, 48, 44, 77, 49, 49, 46, 49, 46, 48, 10,
];

/// `Atlantic/Canary`.
#[verifier::opaque]
pub const ATLANTIC_CANARY: [u8; 478] = [
    84, 90, 105, 102, 50, 0, 0, 0, 0, 0, 0, 0, 0, 0, 0, 0, 0, 0, 0, 0, 0, 0, 0, 0, 0, 0, 0, 0, 0,
    0, 0, 0, 0, 0, 0, 0, 0, 0, 0, 1, 0, 0, 0, 1, 0, 0, 0, 0, 0, 0, 0, 84, 90, 105, 102, 50, 0, 0,
    0, 0, 0, 0, 0, 0, 0, 0, 0, 0, 0, 0, 0, 0, 0, 0, 0, 0, 0, 0, 0, 0, 0, 0, 0, 0, 0, 0, 35, 0, 0,
    0, 4, 0, 0, 0, 17, 255, 255, 255, 255, 166, 4, 92, 240, 255, 255, 255, 255, 212, 65, 247, 32,
    0, 0, 0, 0, 19, 77, 54, 0, 0, 0, 0, 0, 20, 51, 250, 144, 0, 0, 0, 0, 21, 35, 235, 144, 0, 0,
    0, 0, 22, 19, 220, 144, 0, 0, 0, 0, 23, 3, 205, 144, 0, 0, 0, 0, 23, 243, 190, 144, 0, 0, 0,
    0, 24, 227, 175, 144, 0, 0, 0, 0, 25, 211, 160, 144, 0, 0, 0, 0, 26, 195, 145, 144, 0, 0, 0,
    0, 27, 188, 189, 16, 0, 0, 0, 0, 28, 172, 174, 16, 0, 0, 0, 0, 29, 156, 159, 16, 0, 0, 0, 0,
    30, 140, 144, 16, 0, 0, 0, 0, 31, 124, 129, 16, 0, 0, 0, 0, 32, 108, 114, 16, 0, 0, 0, 0, 33,
    92, 99, 16, 0, 0, 0, 0, 34, 76, 84, 16, 0, 0, 0, 0, 35, 60, 69, 16, 0, 0, 0, 0, 36, 44, 54,
    16, 0, 0, 0, 0, 37, 28, 39, 16, 0, 0, 0, 0, 38, 12, 24, 16, 0, 0, 0, 0, 39, 5, 67, 144, 0, 0,
    0, 0, 39, 245, 52, 144, 0, 0, 0, 0, 40, 229, 37, 144, 0, 0, 0, 0, 41, 213, 22, 144, 0, 0, 0,
    0, 42, 197, 7, 144, 0, 0, 0, 0, 43, 180, 248, 144, 0, 0, 0, 0, 44, 164, 233, 144, 0, 0, 0, 0,
    45, 148, 218, 144, 0, 0, 0, 0, 46, 132, 203, 144, 0, 0, 0, 0, 47, 116, 188, 144, 0, 0, 0, 0,
    48, 100, 173, 144, 0, 0, 0, 0, 49, 93, 217, 16, 1, 2, 3, 2, 3, 2, 3, 2, 3, 2, 3, 2, 3, 2, 3,
    2, 3, 2, 3, 2, 3, 2, 3, 2, 3, 2, 3, 2, 3, 2, 3, 2, 3, 2, 3, 255, 255, 241, 144, 0, 0, 255,
    255, 241, 240, 0, 4, 0, 0, 0, 0, 0, 8, 0, 0, 14, 16, 1, 12, 76, 77, 84, 0, 45, 48, 49, 0, 87,
    69, 84, 0, 87, 69, 83, 84, 0, 10, 87, 69, 84, 48, 87, 69, 83, 84, 44, 77, 51, 46, 53, 46, 48,
    47, 49, 44, 77, 49, 48, 46, 53, 46, 48, 10,
];

/// `Atlantic/Cape_Verde`.
#[verifier::opaque]
pub const ATLANTIC_CAPE_VERDE: [u8; 175] = [
    84, 90, 105, 102, 50, 0, 0, 0, 0, 0, 0, 0, 0, 0, 0, 0, 0, 0, 0, 0, 0, 0, 0, 0, 0, 0, 0, 0, 0,
    0, 0, 0, 0, 0, 0, 0, 0, 0, 0, 1, 0, 0, 0, 1, 0, 0, 0, 0, 0, 0, 0, 84, 90, 105, 102, 50, 0, 0,
    0, 0, 0, 0, 0, 0, 0, 0, 0, 0, 0, 0, 0, 0, 0, 0, 0, 0, 0, 0, 0, 0, 0, 0, 0, 0, 0, 0, 4, 0, 0,
    0, 4, 0, 0, 0, 12, 255, 255, 255, 255, 146, 230, 170, 160, 255, 255, 255, 255, 204, 149, 156,
    32, 255, 255, 255, 255, 210, 116, 124, 16, 0, 0, 0, 0, 11, 23, 247, 64, 1, 2, 1, 3, 255, 255,
    233, 244, 0, 0, 255, 255, 227, 224, 0, 4, 255, 255, 241, 240, 1, 8, 255, 255, 241, 240, 0, 8,
    76, 77, 84, 0, 45, 48, 50, 0, 45, 48, 49, 0, 10, 60, 45, 48, 49, 62, 49, 10,
];

/// `Atlantic/Faroe`.
#[verifier::opaque]
pub const ATLANTIC_FAROE: [u8; 441] = [
    84, 90, 105, 102, 50, 0, 0, 0, 0, 0, 0, 0, 0, 0, 0, 0, 0, 0, 0, 0, 0, 0, 0, 0, 0, 0, 0, 0, 0,
    0, 0, 0, 0, 0, 0, 0, 0, 0, 0, 1, 0, 0, 0, 1, 0, 0, 0, 0, 0, 0, 0, 84, 90, 105, 102, 50, 0, 0,
    0, 0, 0, 0, 0, 0, 0, 0, 0, 0, 0, 0, 0, 0, 0, 0, 0, 0, 0, 0, 0, 0, 0, 0, 0, 0, 0, 0, 32, 0, 0,
    0, 3, 0, 0, 0, 13, 255, 255, 255, 255, 139, 109, 164, 88, 0, 0, 0, 0, 21, 35, 235, 144, 0, 0,
    0, 0, 22, 19, 220, 144, 0, 0, 0, 0, 23, 3, 205, 144, 0, 0, 0, 0, 23, 243, 190, 144, 0, 0, 0,
    0, 24, 227, 175, 144, 0, 0, 0, 0, 25, 211, 160, 144, 0, 0, 0, 0, 26, 195, 145, 144, 0, 0, 0,
    0, 27, 188, 189, 16, 0, 0, 0, 0, 28, 172, 174, 16, 0, 0, 0, 0, 29, 156, 159, 16, 0, 0, 0, 0,
    30, 140, 144, 16, 0, 0, 0, 0, 31, 124, 129, 16, 0, 0, 0, 0, 32, 108, 114, 16, 0, 0, 0, 0, 33,
    92, 99, 16, 0, 0, 0, 0, 34, 76, 84, 16, 0, 0, 0, 0, 35, 60, 69, 16, 0, 0, 0, 0, 36, 44, 54,
    16, 0, 0, 0, 0, 37, 28, 39, 16, 0, 0, 0, 0, 38, 12, 24, 16, 0, 0, 0, 0, 39, 5, 67, 144, 0, 0,
    0, 0, 39, 245, 52, 144, 0, 0, 0, 0, 40, 229, 37, 144, 0, 0, 0, 0, 41, 213, 22, 144, 0, 0, 0,
    0, 42, 197, 7, 144, 0, 0, 0, 0, 43, 180, 248, 144, 0, 0, 0, 0, 44, 164, 233, 144, 0, 0, 0, 0,
    45, 148, 218, 144, 0, 0, 0, 0, 46, 132, 203, 144, 0, 0, 0, 0, 47, 116, 188, 144, 0, 0, 0, 0,
    48, 100, 173, 144, 0, 0, 0, 0, 49, 93, 217, 16, 1, 2, 1, 2, 1, 2, 1, 2, 1, 2, 1, 2, 1, 2, 1,
    2, 1, 2, 1, 2, 1, 2, 1, 2, 1, 2, 1, 2, 1, 2, 1, 2, 255, 255, 249, 168, 0, 0, 0, 0, 0, 0, 0, 4,
    0, 0, 14, 16, 1, 8, 76, 77, 84, 0, 87, 69, 84, 0, 87, 69, 83, 84, 0, 10, 87, 69, 84, 48, 87,
    69, 83, 84, 44, 77, 51, 46, 53, 46, 48, 47, 49, 44, 77, 49, 48, 46, 53, 46, 48, 10,
];

/// `Atlantic/Madeira`.
#[verifier::opaque]
pub const ATLANTIC_MADEIRA: [u8; 1372] = [
    84, 90, 105, 102, 50, 0, 0, 0, 0, 0, 0, 0, 0, 0, 0, 0, 0, 0, 0, 0, 0, 0, 0, 0, 0, 0, 0, 0, 0,
    0, 0, 0, 0, 0, 0, 0, 0, 0, 0, 1, 0, 0, 0, 1, 0, 0, 0, 0, 0, 0, 0, 84, 90, 105, 102, 50, 0, 0,
    0, 0, 0, 0, 0, 0, 0, 0, 0, 0, 0, 0, 0, 0, 0, 0, 0, 0, 0, 0, 0, 0, 0, 0, 0, 0, 0, 0, 131, 0, 0,
    0, 7, 0, 0, 0, 29, 255, 255, 255, 255, 94, 61, 19, 88, 255, 255, 255, 255, 146, 230, 156, 144,
    255, 255, 255, 255, 155, 75, 123, 128, 255, 255, 255, 255, 155, 254, 213, 144, 255, 255, 255,
    255, 156, 157, 9, 144, 255, 255, 255, 255, 157, 201, 145, 128, 255, 255, 255, 255, 158, 126,
    61, 16, 255, 255, 255, 255, 159, 170, 197, 0, 255, 255, 255, 255, 160, 95, 112, 144, 255, 255,
    255, 255, 161, 139, 248, 128, 255, 255, 255, 255, 162, 65, 245, 144, 255, 255, 255, 255, 163,
    110, 125, 128, 255, 255, 255, 255, 164, 35, 41, 16, 255, 255, 255, 255, 165, 79, 177, 0, 255,
    255, 255, 255, 170, 5, 253, 128, 255, 255, 255, 255, 170, 231, 110, 0, 255, 255, 255, 255,
    173, 201, 182, 0, 255, 255, 255, 255, 174, 167, 50, 0, 255, 255, 255, 255, 175, 160, 93, 128,
    255, 255, 255, 255, 176, 135, 20, 0, 255, 255, 255, 255, 177, 137, 122, 0, 255, 255, 255, 255,
    178, 112, 48, 128, 255, 255, 255, 255, 179, 114, 150, 128, 255, 255, 255, 255, 180, 80, 18,
    128, 255, 255, 255, 255, 183, 50, 90, 128, 255, 255, 255, 255, 184, 15, 214, 128, 255, 255,
    255, 255, 184, 255, 199, 128, 255, 255, 255, 255, 185, 239, 184, 128, 255, 255, 255, 255, 188,
    200, 198, 0, 255, 255, 255, 255, 189, 184, 183, 0, 255, 255, 255, 255, 190, 159, 109, 128,
    255, 255, 255, 255, 191, 152, 153, 0, 255, 255, 255, 255, 192, 154, 255, 0, 255, 255, 255,
    255, 193, 120, 123, 0, 255, 255, 255, 255, 194, 104, 108, 0, 255, 255, 255, 255, 195, 88, 93,
    0, 255, 255, 255, 255, 196, 63, 19, 128, 255, 255, 255, 255, 197, 56, 63, 0, 255, 255, 255,
    255, 198, 58, 165, 0, 255, 255, 255, 255, 199, 88, 186, 128, 255, 255, 255, 255, 199, 217,
    237, 128, 255, 255, 255, 255, 201, 3, 224, 128, 255, 255, 255, 255, 201, 241, 46, 128, 255,
    255, 255, 255, 202, 226, 113, 0, 255, 255, 255, 255, 203, 181, 97, 0, 255, 255, 255, 255, 203,
    236, 177, 240, 255, 255, 255, 255, 204, 128, 89, 240, 255, 255, 255, 255, 204, 220, 177, 0,
    255, 255, 255, 255, 205, 149, 67, 0, 255, 255, 255, 255, 205, 195, 89, 112, 255, 255, 255,
    255, 206, 114, 176, 240, 255, 255, 255, 255, 206, 197, 205, 128, 255, 255, 255, 255, 207, 117,
    37, 0, 255, 255, 255, 255, 207, 172, 117, 240, 255, 255, 255, 255, 208, 82, 146, 240, 255,
    255, 255, 255, 208, 165, 175, 128, 255, 255, 255, 255, 209, 85, 7, 0, 255, 255, 255, 255, 209,
    140, 87, 240, 255, 255, 255, 255, 210, 50, 116, 240, 255, 255, 255, 255, 210, 133, 145, 128,
    255, 255, 255, 255, 211, 89, 211, 0, 255, 255, 255, 255, 212, 73, 196, 0, 255, 255, 255, 255,
    213, 57, 223, 48, 255, 255, 255, 255, 214, 41, 208, 48, 255, 255, 255, 255, 215, 25, 193, 48,
    255, 255, 255, 255, 216, 9, 178, 48, 255, 255, 255, 255, 216, 249, 163, 48, 255, 255, 255,
    255, 217, 233, 148, 48, 255, 255, 255, 255, 218, 217, 133, 48, 255, 255, 255, 255, 219, 201,
    118, 48, 255, 255, 255, 255, 220, 185, 103, 48, 255, 255, 255, 255, 221, 178, 146, 176, 255,
    255, 255, 255, 222, 162, 131, 176, 255, 255, 255, 255, 223, 146, 116, 176, 255, 255, 255, 255,
    224, 130, 101, 176, 255, 255, 255, 255, 225, 114, 86, 176, 255, 255, 255, 255, 226, 98, 71,
    176, 255, 255, 255, 255, 227, 82, 56, 176, 255, 255, 255, 255, 228, 66, 41, 176, 255, 255,
    255, 255, 229, 50, 26, 176, 255, 255, 255, 255, 230, 34, 11, 176, 255, 255, 255, 255, 231, 27,
    55, 48, 255, 255, 255, 255, 232, 11, 40, 48, 255, 255, 255, 255, 232, 251, 25, 48, 255, 255,
    255, 255, 233, 235, 10, 48, 255, 255, 255, 255, 234, 218, 251, 48, 255, 255, 255, 255, 235,
    202, 236, 48, 255, 255, 255, 255, 236, 186, 221, 48, 255, 255, 255, 255, 237, 170, 206, 48,
    255, 255, 255, 255, 238, 154, 191, 48, 255, 255, 255, 255, 239, 138, 176, 48, 255, 255, 255,
    255, 240, 122, 161, 48, 255, 255, 255, 255, 241, 106, 146, 48, 255, 255, 255, 255, 242, 99,
    189, 176, 255, 255, 255, 255, 243, 83, 174, 176, 255, 255, 255, 255, 244, 67, 159, 176, 255,
    255, 255, 255, 245, 51, 144, 176, 255, 255, 255, 255, 246, 35, 129, 176, 255, 255, 255, 255,
    247, 19, 114, 176, 255, 255, 255, 255, 248, 3, 99, 176, 255, 255, 255, 255, 248, 243, 84, 176,
    255, 255, 255, 255, 249, 227, 69, 176, 0, 0, 0, 0, 23, 12, 250, 0, 0, 0, 0, 0, 23, 243, 176,
    128, 0, 0, 0, 0, 24, 227, 161, 128, 0, 0, 0, 0, 25, 211, 146, 128, 0, 0, 0, 0, 26, 195, 131,
    128, 0, 0, 0, 0, 27, 188, 175, 0, 0, 0, 0, 0, 28, 172, 160, 0, 0, 0, 0, 0, 29, 156, 145, 0, 0,
    0, 0, 0, 30, 140, 130, 0, 0, 0, 0, 0, 31, 124, 129, 16, 0, 0, 0, 0, 32, 108, 114, 16, 0, 0, 0,
    0, 33, 92, 99, 16, 0, 0, 0, 0, 34, 76, 84, 16, 0, 0, 0, 0, 35, 60, 69, 16, 0, 0, 0, 0, 36, 44,
    54, 16, 0, 0, 0, 0, 37, 28, 39, 16, 0, 0, 0, 0, 38, 12, 24, 16, 0, 0, 0, 0, 39, 5, 67, 144, 0,
    0, 0, 0, 39, 245, 52, 144, 0, 0, 0, 0, 40, 229, 37, 144, 0, 0, 0, 0, 41, 213, 22, 144, 0, 0,
    0, 0, 42, 197, 7, 144, 0, 0, 0, 0, 43, 180, 248, 144, 0, 0, 0, 0, 44, 164, 233, 144, 0, 0, 0,
    0, 45, 148, 218, 144, 0, 0, 0, 0, 46, 132, 203, 144, 0, 0, 0, 0, 47, 116, 188, 144, 0, 0, 0,
    0, 48, 100, 173, 144, 0, 0, 0, 0, 49, 93, 217, 16, 1, 3, 2, 3, 2, 3, 2, 3, 2, 3, 2, 3, 2, 3,
    2, 3, 2, 3, 2, 3, 2, 3, 2, 3, 2, 3, 2, 3, 2, 3, 2, 3, 2, 3, 2, 3, 2, 3, 2, 3, 2, 3, 2, 3, 2,
    4, 2, 3, 2, 4, 2, 3, 2, 4, 2, 3, 2, 4, 2, 3, 2, 3, 2, 3, 2, 3, 2, 3, 2, 3, 2, 3, 2, 3, 2, 3,
    2, 3, 2, 3, 2, 3, 2, 3, 2, 3, 2, 3, 2, 3, 2, 3, 2, 3, 2, 3, 2, 3, 2, 3, 2, 5, 6, 5, 6, 5, 6,
    5, 6, 5, 6, 5, 6, 5, 6, 5, 6, 5, 6, 5, 6, 5, 6, 5, 6, 5, 6, 5, 6, 5, 6, 255, 255, 240, 40, 0,
    0, 255, 255, 240, 40, 0, 4, 0, 0, 0, 0, 1, 8, 255, 255, 241, 240, 0, 12, 0, 0, 14, 16, 1, 16,
    0, 0, 0, 0, 0, 20, 0, 0, 14, 16, 1, 24, 76, 77, 84, 0, 70, 77, 84, 0, 43, 48, 48, 0, 45, 48,
    49, 0, 43, 48, 49, 0, 87, 69, 84, 0, 87, 69, 83, 84, 0, 10, 87, 69, 84, 48, 87, 69, 83, 84,
    44, 77, 51, 46, 53, 46, 48, 47, 49, 44, 77, 49, 48, 46, 53, 46, 48, 10,
];

/// `Atlantic/South_Georgia`.
#[verifier::opaque]
pub const ATLANTIC_SOUTH_GEORGIA: [u8; 132] = [
    84, 90, 105, 102, 50, 0, 0, 0, 0, 0, 0, 0, 0, 0, 0, 0, 0, 0, 0, 0, 0, 0, 0, 0, 0, 0, 0, 0, 0,
    0, 0, 0, 0, 0, 0, 0, 0, 0, 0, 1, 0, 0, 0, 1, 0, 0, 0, 0, 0, 0, 0, 84, 90, 105, 102, 50, 0, 0,
    0, 0, 0, 0, 0, 0, 0, 0, 0, 0, 0, 0, 0, 0, 0, 0, 0, 0, 0, 0, 0, 0, 0, 0, 0, 0, 0, 0, 1, 0, 0,
    0, 2, 0, 0, 0, 8, 255, 255, 255, 255, 105, 134, 253, 192, 1, 255, 255, 221, 192, 0, 0, 255,
    255, 227, 224, 0, 4, 76, 77, 84, 0, 45, 48, 50, 0, 10, 60, 45, 48, 50, 62, 50, 10,
];

/// `Atlantic/Stanley`.
#[verifier::opaque]
pub const ATLANTIC_STANLEY: [u8; 789] = [
    84, 90, 105, 102, 50, 0, 0, 0, 0, 0, 0, 0, 0, 0, 0, 0, 0, 0, 0, 0, 0, 0, 0, 0, 0, 0, 0, 0, 0,
    0, 0, 0, 0, 0, 0, 0, 0, 0, 0, 1, 0, 0, 0, 1, 0, 0, 0, 0, 0, 0, 0, 84, 90, 105, 102, 50, 0, 0,
    0, 0, 0, 0, 0, 0, 0, 0, 0, 0, 0, 0, 0, 0, 0, 0, 0, 0, 0, 0, 0, 0, 0, 0, 0, 0, 0, 0, 70, 0, 0,
    0, 6, 0, 0, 0, 20, 255, 255, 255, 255, 105, 135, 17, 188, 255, 255, 255, 255, 147, 68, 95, 60,
    255, 255, 255, 255, 195, 79, 90, 192, 255, 255, 255, 255, 196, 54, 3, 48, 255, 255, 255, 255,
    197, 47, 60, 192, 255, 255, 255, 255, 198, 21, 229, 48, 255, 255, 255, 255, 199, 24, 89, 64,
    255, 255, 255, 255, 199, 255, 1, 176, 255, 255, 255, 255, 200, 248, 59, 64, 255, 255, 255,
    255, 201, 222, 227, 176, 255, 255, 255, 255, 202, 216, 29, 64, 255, 255, 255, 255, 203, 190,
    197, 176, 255, 255, 255, 255, 204, 183, 255, 64, 255, 255, 255, 255, 205, 54, 129, 48, 0, 0,
    0, 0, 25, 17, 254, 64, 0, 0, 0, 0, 25, 211, 188, 176, 0, 0, 0, 0, 26, 241, 196, 32, 0, 0, 0,
    0, 27, 170, 100, 48, 0, 0, 0, 0, 28, 209, 166, 32, 0, 0, 0, 0, 29, 138, 70, 48, 0, 0, 0, 0,
    30, 168, 91, 176, 0, 0, 0, 0, 31, 106, 54, 64, 0, 0, 0, 0, 32, 136, 61, 176, 0, 0, 0, 0, 33,
    74, 24, 64, 0, 0, 0, 0, 34, 104, 31, 176, 0, 0, 0, 0, 35, 41, 250, 64, 0, 0, 0, 0, 36, 72, 1,
    176, 0, 0, 0, 0, 37, 9, 220, 64, 0, 0, 0, 0, 38, 49, 30, 48, 0, 0, 0, 0, 38, 233, 190, 64, 0,
    0, 0, 0, 40, 17, 0, 48, 0, 0, 0, 0, 40, 210, 218, 192, 0, 0, 0, 0, 41, 240, 226, 48, 0, 0, 0,
    0, 42, 178, 188, 192, 0, 0, 0, 0, 43, 208, 196, 48, 0, 0, 0, 0, 44, 146, 158, 192, 0, 0, 0, 0,
    45, 176, 166, 48, 0, 0, 0, 0, 46, 114, 128, 192, 0, 0, 0, 0, 47, 144, 136, 48, 0, 0, 0, 0, 48,
    82, 98, 192, 0, 0, 0, 0, 49, 121, 164, 176, 0, 0, 0, 0, 50, 59, 127, 64, 0, 0, 0, 0, 51, 89,
    134, 176, 0, 0, 0, 0, 52, 27, 97, 64, 0, 0, 0, 0, 53, 57, 104, 176, 0, 0, 0, 0, 53, 251, 67,
    64, 0, 0, 0, 0, 55, 25, 74, 176, 0, 0, 0, 0, 55, 219, 37, 64, 0, 0, 0, 0, 56, 249, 44, 176, 0,
    0, 0, 0, 57, 187, 7, 64, 0, 0, 0, 0, 58, 217, 42, 208, 0, 0, 0, 0, 59, 145, 202, 224, 0, 0, 0,
    0, 60, 194, 71, 80, 0, 0, 0, 0, 61, 113, 172, 224, 0, 0, 0, 0, 62, 162, 41, 80, 0, 0, 0, 0,
    63, 90, 201, 96, 0, 0, 0, 0, 64, 130, 11, 80, 0, 0, 0, 0, 65, 58, 171, 96, 0, 0, 0, 0, 66, 97,
    237, 80, 0, 0, 0, 0, 67, 26, 141, 96, 0, 0, 0, 0, 68, 65, 207, 80, 0, 0, 0, 0, 68, 250, 111,
    96, 0, 0, 0, 0, 70, 33, 177, 80, 0, 0, 0, 0, 70, 218, 81, 96, 0, 0, 0, 0, 72, 10, 205, 208, 0,
    0, 0, 0, 72, 195, 109, 224, 0, 0, 0, 0, 73, 234, 175, 208, 0, 0, 0, 0, 74, 163, 79, 224, 0, 0,
    0, 0, 75, 202, 145, 208, 0, 0, 0, 0, 76, 131, 49, 224, 1, 3, 2, 3, 2, 3, 2, 3, 2, 3, 2, 3, 2,
    3, 5, 4, 5, 4, 5, 2, 3, 2, 3, 2, 3, 2, 3, 2, 3, 2, 3, 2, 3, 2, 3, 2, 3, 2, 3, 2, 3, 2, 3, 2,
    3, 2, 3, 2, 3, 2, 3, 2, 3, 2, 3, 2, 3, 2, 3, 2, 3, 2, 3, 2, 3, 2, 3, 2, 3, 5, 255, 255, 201,
    196, 0, 0, 255, 255, 201, 196, 0, 4, 255, 255, 213, 208, 1, 8, 255, 255, 199, 192, 0, 12, 255,
    255, 227, 224, 1, 16, 255, 255, 213, 208, 0, 8, 76, 77, 84, 0, 83, 77, 84, 0, 45, 48, 51, 0,
    45, 48, 52, 0, 45, 48, 50, 0, 10, 60, 45, 48, 51, 62, 51, 10,
];

/// `Australia/Adelaide`.
#[verifier::opaque]
pub const AUSTRALIA_ADELAIDE: [u8; 921] = [
    84, 90, 105, 102, 50, 0, 0, 0, 0, 0, 0, 0, 0, 0, 0, 0, 0, 0, 0, 0, 0, 0, 0, 0, 0, 0, 0, 0, 0,
    0, 0, 0, 0, 0, 0, 0, 0, 0, 0, 1, 0, 0, 0, 1, 0, 0, 0, 0, 0, 0, 0, 84, 90, 105, 102, 50, 0, 0,
    0, 0, 0, 0, 0, 0, 0, 0, 0, 0, 0, 0, 0, 0, 0, 0, 0, 0, 0, 0, 0, 0, 0, 0, 0, 0, 0, 0, 84, 0, 0,
    0, 4, 0, 0, 0, 14, 255, 255, 255, 255, 115, 22, 139, 20, 255, 255, 255, 255, 123, 18, 3, 112,
    255, 255, 255, 255, 156, 78, 201, 136, 255, 255, 255, 255, 156, 188, 54, 8, 255, 255, 255,
    255, 203, 84, 186, 8, 255, 255, 255, 255, 203, 199, 108, 136, 255, 255, 255, 255, 204, 183,
    93, 136, 255, 255, 255, 255, 205, 167, 78, 136, 255, 255, 255, 255, 206, 160, 122, 8, 255,
    255, 255, 255, 207, 135, 48, 136, 0, 0, 0, 0, 3, 112, 64, 136, 0, 0, 0, 0, 4, 13, 35, 8, 0, 0,
    0, 0, 5, 80, 34, 136, 0, 0, 0, 0, 5, 246, 63, 136, 0, 0, 0, 0, 7, 48, 4, 136, 0, 0, 0, 0, 7,
    214, 33, 136, 0, 0, 0, 0, 9, 15, 230, 136, 0, 0, 0, 0, 9, 182, 3, 136, 0, 0, 0, 0, 10, 239,
    200, 136, 0, 0, 0, 0, 11, 159, 32, 8, 0, 0, 0, 0, 12, 216, 229, 8, 0, 0, 0, 0, 13, 127, 2, 8,
    0, 0, 0, 0, 14, 184, 199, 8, 0, 0, 0, 0, 15, 94, 228, 8, 0, 0, 0, 0, 16, 152, 169, 8, 0, 0, 0,
    0, 17, 62, 198, 8, 0, 0, 0, 0, 18, 120, 139, 8, 0, 0, 0, 0, 19, 30, 168, 8, 0, 0, 0, 0, 20,
    88, 109, 8, 0, 0, 0, 0, 20, 254, 138, 8, 0, 0, 0, 0, 22, 56, 79, 8, 0, 0, 0, 0, 22, 231, 166,
    136, 0, 0, 0, 0, 24, 33, 107, 136, 0, 0, 0, 0, 24, 199, 136, 136, 0, 0, 0, 0, 26, 1, 77, 136,
    0, 0, 0, 0, 26, 167, 106, 136, 0, 0, 0, 0, 27, 225, 47, 136, 0, 0, 0, 0, 28, 135, 76, 136, 0,
    0, 0, 0, 29, 193, 17, 136, 0, 0, 0, 0, 30, 121, 163, 136, 0, 0, 0, 0, 31, 151, 185, 8, 0, 0,
    0, 0, 32, 89, 133, 136, 0, 0, 0, 0, 33, 128, 213, 136, 0, 0, 0, 0, 34, 66, 162, 8, 0, 0, 0, 0,
    35, 105, 242, 8, 0, 0, 0, 0, 36, 34, 132, 8, 0, 0, 0, 0, 37, 73, 212, 8, 0, 0, 0, 0, 38, 2,
    102, 8, 0, 0, 0, 0, 39, 41, 182, 8, 0, 0, 0, 0, 39, 207, 211, 8, 0, 0, 0, 0, 41, 9, 152, 8, 0,
    0, 0, 0, 41, 203, 100, 136, 0, 0, 0, 0, 42, 233, 122, 8, 0, 0, 0, 0, 43, 152, 209, 136, 0, 0,
    0, 0, 44, 210, 150, 136, 0, 0, 0, 0, 45, 139, 40, 136, 0, 0, 0, 0, 46, 178, 120, 136, 0, 0, 0,
    0, 47, 116, 69, 8, 0, 0, 0, 0, 48, 146, 90, 136, 0, 0, 0, 0, 49, 93, 97, 136, 0, 0, 0, 0, 50,
    114, 60, 136, 0, 0, 0, 0, 51, 61, 67, 136, 0, 0, 0, 0, 52, 82, 30, 136, 0, 0, 0, 0, 53, 29,
    37, 136, 0, 0, 0, 0, 54, 50, 0, 136, 0, 0, 0, 0, 54, 253, 7, 136, 0, 0, 0, 0, 56, 27, 29, 8,
    0, 0, 0, 0, 56, 220, 233, 136, 0, 0, 0, 0, 57, 250, 255, 8, 0, 0, 0, 0, 58, 188, 203, 136, 0,
    0, 0, 0, 59, 218, 225, 8, 0, 0, 0, 0, 60, 165, 232, 8, 0, 0, 0, 0, 61, 186, 195, 8, 0, 0, 0,
    0, 62, 133, 202, 8, 0, 0, 0, 0, 63, 154, 165, 8, 0, 0, 0, 0, 64, 101, 172, 8, 0, 0, 0, 0, 65,
    131, 193, 136, 0, 0, 0, 0, 66, 69, 142, 8, 0, 0, 0, 0, 67, 99, 163, 136, 0, 0, 0, 0, 68, 46,
    170, 136, 0, 0, 0, 0, 69, 67, 133, 136, 0, 0, 0, 0, 70, 5, 82, 8, 0, 0, 0, 0, 71, 35, 103,
    136, 0, 0, 0, 0, 71, 247, 169, 8, 1, 3, 2, 3, 2, 3, 2, 3, 2, 3, 2, 3, 2, 3, 2, 3, 2, 3, 2, 3,
    2, 3, 2, 3, 2, 3, 2, 3, 2, 3, 2, 3, 2, 3, 2, 3, 2, 3, 2, 3, 2, 3, 2, 3, 2, 3, 2, 3, 2, 3, 2,
    3, 2, 3, 2, 3, 2, 3, 2, 3, 2, 3, 2, 3, 2, 3, 2, 3, 2, 3, 2, 3, 2, 3, 2, 3, 2, 3, 2, 3, 2, 3,
    2, 3, 0, 0, 129, 236, 0, 0, 0, 0, 126, 144, 0, 4, 0, 0, 147, 168, 1, 9, 0, 0, 133, 152, 0, 4,
    76, 77, 84, 0, 65, 67, 83, 84, 0, 65, 67, 68, 84, 0, 10, 65, 67, 83, 84, 45, 57, 58, 51, 48,
    65, 67, 68, 84, 44, 77, 49, 48, 46, 49, 46, 48, 44, 77, 52, 46, 49, 46, 48, 47, 51, 10,
];

/// `Australia/Brisbane`.
#[verifier::opaque]
pub const AUSTRALIA_BRISBANE: [u8; 289] = [
    84, 90, 105, 102, 50, 0, 0, 0, 0, 0, 0, 0, 0, 0, 0, 0, 0, 0, 0, 0, 0, 0, 0, 0, 0, 0, 0, 0, 0,
    0, 0, 0, 0, 0, 0, 0, 0, 0, 0, 1, 0, 0, 0, 1, 0, 0, 0, 0, 0, 0, 0, 84, 90, 105, 102, 50, 0, 0,
    0, 0, 0, 0, 0, 0, 0, 0, 0, 0, 0, 0, 0, 0, 0, 0, 0, 0, 0, 0, 0, 0, 0, 0, 0, 0, 0, 0, 17, 0, 0,
    0, 3, 0, 0, 0, 14, 255, 255, 255, 255, 114, 237, 159, 8, 255, 255, 255, 255, 156, 78, 194,
    128, 255, 255, 255, 255, 156, 188, 47, 0, 255, 255, 255, 255, 203, 84, 179, 0, 255, 255, 255,
    255, 203, 199, 101, 128, 255, 255, 255, 255, 204, 183, 86, 128, 255, 255, 255, 255, 205, 167,
    71, 128, 255, 255, 255, 255, 206, 160, 115, 0, 255, 255, 255, 255, 207, 135, 41, 128, 0, 0, 0,
    0, 3, 112, 57, 128, 0, 0, 0, 0, 4, 13, 28, 0, 0, 0, 0, 0, 37, 73, 205, 0, 0, 0, 0, 0, 37, 239,
    234, 0, 0, 0, 0, 0, 39, 41, 175, 0, 0, 0, 0, 0, 39, 207, 204, 0, 0, 0, 0, 0, 41, 9, 145, 0, 0,
    0, 0, 0, 41, 175, 174, 0, 2, 1, 2, 1, 2, 1, 2, 1, 2, 1, 2, 1, 2, 1, 2, 1, 2, 0, 0, 143, 120,
    0, 0, 0, 0, 154, 176, 1, 4, 0, 0, 140, 160, 0, 9, 76, 77, 84, 0, 65, 69, 68, 84, 0, 65, 69,
    83, 84, 0, 10, 65, 69, 83, 84, 45, 49, 48, 10,
];

/// `Australia/Broken_Hill`.
#[verifier::opaque]
pub const AUSTRALIA_BROKEN_HILL: [u8; 941] = [
    84, 90, 105, 102, 50, 0, 0, 0, 0, 0, 0, 0, 0, 0, 0, 0, 0, 0, 0, 0, 0, 0, 0, 0, 0, 0, 0, 0, 0,
    0, 0, 0, 0, 0, 0, 0, 0, 0, 0, 1, 0, 0, 0, 1, 0, 0, 0, 0, 0, 0, 0, 84, 90, 105, 102, 50, 0, 0,
    0, 0, 0, 0, 0, 0, 0, 0, 0, 0, 0, 0, 0, 0, 0, 0, 0, 0, 0, 0, 0, 0, 0, 0, 0, 0, 0, 0, 85, 0, 0,
    0, 5, 0, 0, 0, 19, 255, 255, 255, 255, 115, 22, 136, 100, 255, 255, 255, 255, 118, 4, 165,
    224, 255, 255, 255, 255, 123, 18, 3, 112, 255, 255, 255, 255, 156, 78, 201, 136, 255, 255,
    255, 255, 156, 188, 54, 8, 255, 255, 255, 255, 203, 84, 186, 8, 255, 255, 255, 255, 203, 199,
    108, 136, 255, 255, 255, 255, 204, 183, 93, 136, 255, 255, 255, 255, 205, 167, 78, 136, 255,
    255, 255, 255, 206, 160, 122, 8, 255, 255, 255, 255, 207, 135, 48, 136, 0, 0, 0, 0, 3, 112,
    64, 136, 0, 0, 0, 0, 4, 13, 35, 8, 0, 0, 0, 0, 5, 80, 34, 136, 0, 0, 0, 0, 5, 246, 63, 136, 0,
    0, 0, 0, 7, 48, 4, 136, 0, 0, 0, 0, 7, 214, 33, 136, 0, 0, 0, 0, 9, 15, 230, 136, 0, 0, 0, 0,
    9, 182, 3, 136, 0, 0, 0, 0, 10, 239, 200, 136, 0, 0, 0, 0, 11, 159, 32, 8, 0, 0, 0, 0, 12,
    216, 229, 8, 0, 0, 0, 0, 13, 127, 2, 8, 0, 0, 0, 0, 14, 184, 199, 8, 0, 0, 0, 0, 15, 94, 228,
    8, 0, 0, 0, 0, 16, 152, 169, 8, 0, 0, 0, 0, 17, 62, 198, 8, 0, 0, 0, 0, 18, 120, 139, 8, 0, 0,
    0, 0, 19, 30, 168, 8, 0, 0, 0, 0, 20, 88, 109, 8, 0, 0, 0, 0, 20, 254, 138, 8, 0, 0, 0, 0, 22,
    56, 79, 8, 0, 0, 0, 0, 23, 12, 144, 136, 0, 0, 0, 0, 24, 33, 107, 136, 0, 0, 0, 0, 24, 199,
    136, 136, 0, 0, 0, 0, 26, 1, 77, 136, 0, 0, 0, 0, 26, 167, 106, 136, 0, 0, 0, 0, 27, 225, 47,
    136, 0, 0, 0, 0, 28, 135, 76, 136, 0, 0, 0, 0, 29, 193, 17, 136, 0, 0, 0, 0, 30, 121, 163,
    136, 0, 0, 0, 0, 31, 151, 185, 8, 0, 0, 0, 0, 32, 89, 133, 136, 0, 0, 0, 0, 33, 128, 213, 136,
    0, 0, 0, 0, 34, 66, 162, 8, 0, 0, 0, 0, 35, 105, 242, 8, 0, 0, 0, 0, 36, 34, 132, 8, 0, 0, 0,
    0, 37, 73, 212, 8, 0, 0, 0, 0, 37, 239, 241, 8, 0, 0, 0, 0, 39, 41, 182, 8, 0, 0, 0, 0, 39,
    207, 211, 8, 0, 0, 0, 0, 41, 9, 152, 8, 0, 0, 0, 0, 41, 175, 181, 8, 0, 0, 0, 0, 42, 233, 122,
    8, 0, 0, 0, 0, 43, 152, 209, 136, 0, 0, 0, 0, 44, 210, 150, 136, 0, 0, 0, 0, 45, 120, 179,
    136, 0, 0, 0, 0, 46, 178, 120, 136, 0, 0, 0, 0, 47, 88, 149, 136, 0, 0, 0, 0, 48, 146, 90,
    136, 0, 0, 0, 0, 49, 93, 97, 136, 0, 0, 0, 0, 50, 114, 60, 136, 0, 0, 0, 0, 51, 61, 67, 136,
    0, 0, 0, 0, 52, 82, 30, 136, 0, 0, 0, 0, 53, 29, 37, 136, 0, 0, 0, 0, 54, 50, 0, 136, 0, 0, 0,
    0, 54, 253, 7, 136, 0, 0, 0, 0, 56, 27, 29, 8, 0, 0, 0, 0, 56, 220, 233, 136, 0, 0, 0, 0, 57,
    250, 255, 8, 0, 0, 0, 0, 58, 188, 203, 136, 0, 0, 0, 0, 59, 218, 225, 8, 0, 0, 0, 0, 60, 165,
    232, 8, 0, 0, 0, 0, 61, 186, 195, 8, 0, 0, 0, 0, 62, 133, 202, 8, 0, 0, 0, 0, 63, 154, 165, 8,
    0, 0, 0, 0, 64, 101, 172, 8, 0, 0, 0, 0, 65, 131, 193, 136, 0, 0, 0, 0, 66, 69, 142, 8, 0, 0,
    0, 0, 67, 99, 163, 136, 0, 0, 0, 0, 68, 46, 170, 136, 0, 0, 0, 0, 69, 67, 133, 136, 0, 0, 0,
    0, 70, 5, 82, 8, 0, 0, 0, 0, 71, 35, 103, 136, 0, 0, 0, 0, 71, 247, 169, 8, 1, 2, 4, 3, 4, 3,
    4, 3, 4, 3, 4, 3, 4, 3, 4, 3, 4, 3, 4, 3, 4, 3, 4, 3, 4, 3, 4, 3, 4, 3, 4, 3, 4, 3, 4, 3, 4,
    3, 4, 3, 4, 3, 4, 3, 4, 3, 4, 3, 4, 3, 4, 3, 4, 3, 4, 3, 4, 3, 4, 3, 4, 3, 4, 3, 4, 3, 4, 3,
    4, 3, 4, 3, 4, 3, 4, 3, 4, 3, 4, 3, 4, 3, 4, 3, 4, 0, 0, 132, 156, 0, 0, 0, 0, 140, 160, 0, 4,
    0, 0, 126, 144, 0, 9, 0, 0, 147, 168, 1, 14, 0, 0, 133, 152, 0, 9, 76, 77, 84, 0, 65, 69, 83,
    84, 0, 65, 67, 83, 84, 0, 65, 67, 68, 84, 0, 10, 65, 67, 83, 84, 45, 57, 58, 51, 48, 65, 67,
    68, 84, 44, 77, 49, 48, 46, 49, 46, 48, 44, 77, 52, 46, 49, 46, 48, 47, 51, 10,
];

/// `Australia/Darwin`.
#[verifier::opaque]
pub const AUSTRALIA_DARWIN: [u8; 234] = [
    84, 90, 105, 102, 50, 0, 0, 0, 0, 0, 0, 0, 0, 0, 0, 0, 0, 0, 0, 0, 0, 0, 0, 0, 0, 0, 0, 0, 0,
    0, 0, 0, 0, 0, 0, 0, 0, 0, 0, 1, 0, 0, 0, 1, 0, 0, 0, 0, 0, 0, 0, 84, 90, 105, 102, 50, 0, 0,
    0, 0, 0, 0, 0, 0, 0, 0, 0, 0, 0, 0, 0, 0, 0, 0, 0, 0, 0, 0, 0, 0, 0, 0, 0, 0, 0, 0, 10, 0, 0,
    0, 4, 0, 0, 0, 14, 255, 255, 255, 255, 115, 22, 146, 88, 255, 255, 255, 255, 123, 18, 3, 112,
    255, 255, 255, 255, 156, 78, 201, 136, 255, 255, 255, 255, 156, 188, 54, 8, 255, 255, 255,
    255, 203, 84, 186, 8, 255, 255, 255, 255, 203, 199, 108, 136, 255, 255, 255, 255, 204, 183,
    93, 136, 255, 255, 255, 255, 205, 167, 78, 136, 255, 255, 255, 255, 206, 160, 122, 8, 255,
    255, 255, 255, 207, 135, 48, 136, 1, 3, 2, 3, 2, 3, 2, 3, 2, 3, 0, 0, 122, 168, 0, 0, 0, 0,
    126, 144, 0, 4, 0, 0, 147, 168, 1, 9, 0, 0, 133, 152, 0, 4, 76, 77, 84, 0, 65, 67, 83, 84, 0,
    65, 67, 68, 84, 0, 10, 65, 67, 83, 84, 45, 57, 58, 51, 48, 10,
];

/// `Australia/Eucla`.
#[verifier::opaque]
pub const AUSTRALIA_EUCLA: [u8; 314] = [
    84, 90, 105, 102, 50, 0, 0, 0, 0, 0, 0, 0, 0, 0, 0, 0, 0, 0, 0, 0, 0, 0, 0, 0, 0, 0, 0, 0, 0,
    0, 0, 0, 0, 0, 0, 0, 0, 0, 0, 1, 0, 0, 0, 1, 0, 0, 0, 0, 0, 0, 0, 84, 90, 105, 102, 50, 0, 0,
    0, 0, 0, 0, 0, 0, 0, 0, 0, 0, 0, 0, 0, 0, 0, 0, 0, 0, 0, 0, 0, 0, 0, 0, 0, 0, 0, 0, 19, 0, 0,
    0, 3, 0, 0, 0, 16, 255, 255, 255, 255, 116, 166, 10, 176, 255, 255, 255, 255, 156, 78, 212,
    20, 255, 255, 255, 255, 156, 188, 64, 148, 255, 255, 255, 255, 203, 84, 196, 148, 255, 255,
    255, 255, 203, 199, 119, 20, 255, 255, 255, 255, 204, 183, 104, 20, 255, 255, 255, 255, 205,
    167, 89, 20, 0, 0, 0, 0, 9, 15, 241, 20, 0, 0, 0, 0, 9, 182, 14, 20, 0, 0, 0, 0, 26, 1, 88,
    20, 0, 0, 0, 0, 26, 167, 117, 20, 0, 0, 0, 0, 41, 37, 82, 20, 0, 0, 0, 0, 41, 175, 191, 148,
    0, 0, 0, 0, 69, 113, 180, 148, 0, 0, 0, 0, 70, 5, 92, 148, 0, 0, 0, 0, 71, 35, 114, 20, 0, 0,
    0, 0, 71, 238, 121, 20, 0, 0, 0, 0, 73, 3, 84, 20, 0, 0, 0, 0, 73, 206, 91, 20, 2, 1, 2, 1, 2,
    1, 2, 1, 2, 1, 2, 1, 2, 1, 2, 1, 2, 1, 2, 0, 0, 120, 208, 0, 0, 0, 0, 137, 28, 1, 4, 0, 0,
    123, 12, 0, 10, 76, 77, 84, 0, 43, 48, 57, 52, 53, 0, 43, 48, 56, 52, 53, 0, 10, 60, 43, 48,
    56, 52, 53, 62, 45, 56, 58, 52, 53, 10,
];

/// `Australia/Hobart`.
#[verifier::opaque]
pub const AUSTRALIA_HOBART: [u8; 1003] = [
    84, 90, 105, 102, 50, 0, 0, 0, 0, 0, 0, 0, 0, 0, 0, 0, 0, 0, 0, 0, 0, 0, 0, 0, 0, 0, 0, 0, 0,
    0, 0, 0, 0, 0, 0, 0, 0, 0, 0, 1, 0, 0, 0, 1, 0, 0, 0, 0, 0, 0, 0, 84, 90, 105, 102, 50, 0, 0,
    0, 0, 0, 0, 0, 0, 0, 0, 0, 0, 0, 0, 0, 0, 0, 0, 0, 0, 0, 0, 0, 0, 0, 0, 0, 0, 0, 0, 94, 0, 0,
    0, 3, 0, 0, 0, 14, 255, 255, 255, 255, 116, 46, 0, 228, 255, 255, 255, 255, 155, 213, 120,
    128, 255, 255, 255, 255, 156, 188, 47, 0, 255, 255, 255, 255, 157, 218, 68, 128, 255, 255,
    255, 255, 158, 128, 97, 128, 255, 255, 255, 255, 159, 186, 38, 128, 255, 255, 255, 255, 160,
    96, 67, 128, 255, 255, 255, 255, 203, 84, 179, 0, 255, 255, 255, 255, 203, 199, 101, 128, 255,
    255, 255, 255, 204, 183, 86, 128, 255, 255, 255, 255, 205, 167, 71, 128, 255, 255, 255, 255,
    206, 160, 115, 0, 255, 255, 255, 255, 207, 135, 41, 128, 255, 255, 255, 255, 251, 194, 141, 0,
    255, 255, 255, 255, 252, 178, 126, 0, 255, 255, 255, 255, 253, 199, 89, 0, 255, 255, 255, 255,
    254, 118, 176, 128, 255, 255, 255, 255, 255, 167, 59, 0, 0, 0, 0, 0, 0, 86, 146, 128, 0, 0, 0,
    0, 1, 135, 29, 0, 0, 0, 0, 0, 2, 63, 175, 0, 0, 0, 0, 0, 3, 112, 57, 128, 0, 0, 0, 0, 4, 13,
    28, 0, 0, 0, 0, 0, 5, 80, 27, 128, 0, 0, 0, 0, 5, 246, 56, 128, 0, 0, 0, 0, 7, 47, 253, 128,
    0, 0, 0, 0, 7, 214, 26, 128, 0, 0, 0, 0, 9, 15, 223, 128, 0, 0, 0, 0, 9, 181, 252, 128, 0, 0,
    0, 0, 10, 239, 193, 128, 0, 0, 0, 0, 11, 159, 25, 0, 0, 0, 0, 0, 12, 216, 222, 0, 0, 0, 0, 0,
    13, 126, 251, 0, 0, 0, 0, 0, 14, 184, 192, 0, 0, 0, 0, 0, 15, 94, 221, 0, 0, 0, 0, 0, 16, 152,
    162, 0, 0, 0, 0, 0, 17, 62, 191, 0, 0, 0, 0, 0, 18, 120, 132, 0, 0, 0, 0, 0, 19, 30, 161, 0,
    0, 0, 0, 0, 20, 88, 102, 0, 0, 0, 0, 0, 20, 254, 131, 0, 0, 0, 0, 0, 22, 56, 72, 0, 0, 0, 0,
    0, 23, 3, 79, 0, 0, 0, 0, 0, 24, 33, 100, 128, 0, 0, 0, 0, 24, 227, 49, 0, 0, 0, 0, 0, 26, 1,
    70, 128, 0, 0, 0, 0, 26, 167, 99, 128, 0, 0, 0, 0, 27, 225, 40, 128, 0, 0, 0, 0, 28, 135, 69,
    128, 0, 0, 0, 0, 29, 193, 10, 128, 0, 0, 0, 0, 30, 103, 39, 128, 0, 0, 0, 0, 31, 151, 178, 0,
    0, 0, 0, 0, 32, 89, 126, 128, 0, 0, 0, 0, 33, 128, 206, 128, 0, 0, 0, 0, 34, 66, 155, 0, 0, 0,
    0, 0, 35, 105, 235, 0, 0, 0, 0, 0, 36, 34, 125, 0, 0, 0, 0, 0, 37, 73, 205, 0, 0, 0, 0, 0, 38,
    2, 95, 0, 0, 0, 0, 0, 39, 41, 175, 0, 0, 0, 0, 0, 39, 244, 182, 0, 0, 0, 0, 0, 40, 237, 225,
    128, 0, 0, 0, 0, 41, 212, 152, 0, 0, 0, 0, 0, 42, 205, 195, 128, 0, 0, 0, 0, 43, 180, 122, 0,
    0, 0, 0, 0, 44, 173, 165, 128, 0, 0, 0, 0, 45, 148, 92, 0, 0, 0, 0, 0, 46, 141, 135, 128, 0,
    0, 0, 0, 47, 116, 62, 0, 0, 0, 0, 0, 48, 109, 105, 128, 0, 0, 0, 0, 49, 93, 90, 128, 0, 0, 0,
    0, 50, 86, 134, 0, 0, 0, 0, 0, 51, 61, 60, 128, 0, 0, 0, 0, 52, 54, 104, 0, 0, 0, 0, 0, 53,
    29, 30, 128, 0, 0, 0, 0, 54, 22, 74, 0, 0, 0, 0, 0, 54, 253, 0, 128, 0, 0, 0, 0, 55, 246, 44,
    0, 0, 0, 0, 0, 56, 220, 226, 128, 0, 0, 0, 0, 57, 167, 233, 128, 0, 0, 0, 0, 58, 188, 196,
    128, 0, 0, 0, 0, 59, 191, 42, 128, 0, 0, 0, 0, 60, 165, 225, 0, 0, 0, 0, 0, 61, 159, 12, 128,
    0, 0, 0, 0, 62, 133, 195, 0, 0, 0, 0, 0, 63, 126, 238, 128, 0, 0, 0, 0, 64, 101, 165, 0, 0, 0,
    0, 0, 65, 94, 208, 128, 0, 0, 0, 0, 66, 69, 135, 0, 0, 0, 0, 0, 67, 62, 178, 128, 0, 0, 0, 0,
    68, 46, 163, 128, 0, 0, 0, 0, 69, 30, 148, 128, 0, 0, 0, 0, 70, 5, 75, 0, 0, 0, 0, 0, 71, 7,
    177, 0, 2, 1, 2, 1, 2, 1, 2, 1, 2, 1, 2, 1, 2, 1, 2, 1, 2, 1, 2, 1, 2, 1, 2, 1, 2, 1, 2, 1, 2,
    1, 2, 1, 2, 1, 2, 1, 2, 1, 2, 1, 2, 1, 2, 1, 2, 1, 2, 1, 2, 1, 2, 1, 2, 1, 2, 1, 2, 1, 2, 1,
    2, 1, 2, 1, 2, 1, 2, 1, 2, 1, 2, 1, 2, 1, 2, 1, 2, 1, 2, 1, 2, 1, 2, 1, 2, 1, 2, 1, 2, 1, 2,
    1, 2, 1, 0, 0, 138, 28, 0, 0, 0, 0, 154, 176, 1, 4, 0, 0, 140, 160, 0, 9, 76, 77, 84, 0, 65,
    69, 68, 84, 0, 65, 69, 83, 84, 0, 10, 65, 69, 83, 84, 45, 49, 48, 65, 69, 68, 84, 44, 77, 49,
    48, 46, 49, 46, 48, 44, 77, 52, 46, 49, 46, 48, 47, 51, 10,
];

/// `Australia/Lindeman`.
#[verifier::opaque]
pub const AUSTRALIA_LINDEMAN: [u8; 325] = [
    84, 90, 105, 102, 50, 0, 0, 0, 0, 0, 0, 0, 0, 0, 0, 0, 0, 0, 0, 0, 0, 0, 0, 0, 0, 0, 0, 0, 0,
    0, 0, 0, 0, 0, 0, 0, 0, 0, 0, 1, 0, 0, 0, 1, 0, 0, 0, 0, 0, 0, 0, 84, 90, 105, 102, 50, 0, 0,
    0, 0, 0, 0, 0, 0, 0, 0, 0, 0, 0, 0, 0, 0, 0, 0, 0, 0, 0, 0, 0, 0, 0, 0, 0, 0, 0, 0, 21, 0, 0,
    0, 3, 0, 0, 0, 14, 255, 255, 255, 255, 114, 237, 162, 212, 255, 255, 255, 255, 156, 78, 194,
    128, 255, 255, 255, 255, 156, 188, 47, 0, 255, 255, 255, 255, 203, 84, 179, 0, 255, 255, 255,
    255, 203, 199, 101, 128, 255, 255, 255, 255, 204, 183, 86, 128, 255, 255, 255, 255, 205, 167,
    71, 128, 255, 255, 255, 255, 206, 160, 115, 0, 255, 255, 255, 255, 207, 135, 41, 128, 0, 0, 0,
    0, 3, 112, 57, 128, 0, 0, 0, 0, 4, 13, 28, 0, 0, 0, 0, 0, 37, 73, 205, 0, 0, 0, 0, 0, 37, 239,
    234, 0, 0, 0, 0, 0, 39, 41, 175, 0, 0, 0, 0, 0, 39, 207, 204, 0, 0, 0, 0, 0, 41, 9, 145, 0, 0,
    0, 0, 0, 41, 175, 174, 0, 0, 0, 0, 0, 42, 233, 115, 0, 0, 0, 0, 0, 43, 152, 202, 128, 0, 0, 0,
    0, 44, 210, 143, 128, 0, 0, 0, 0, 45, 120, 172, 128, 2, 1, 2, 1, 2, 1, 2, 1, 2, 1, 2, 1, 2, 1,
    2, 1, 2, 1, 2, 1, 2, 0, 0, 139, 172, 0, 0, 0, 0, 154, 176, 1, 4, 0, 0, 140, 160, 0, 9, 76, 77,
    84, 0, 65, 69, 68, 84, 0, 65, 69, 83, 84, 0, 10, 65, 69, 83, 84, 45, 49, 48, 10,
];

/// `Australia/Lord_Howe`.
#[verifier::opaque]
pub const AUSTRALIA_LORD_HOWE: [u8; 692] = [
    84, 90, 105, 102, 50, 0, 0, 0, 0, 0, 0, 0, 0, 0, 0, 0, 0, 0, 0, 0, 0, 0, 0, 0, 0, 0, 0, 0, 0,
    0, 0, 0, 0, 0, 0, 0, 0, 0, 0, 1, 0, 0, 0, 1, 0, 0, 0, 0, 0, 0, 0, 84, 90, 105, 102, 50, 0, 0,
    0, 0, 0, 0, 0, 0, 0, 0, 0, 0, 0, 0, 0, 0, 0, 0, 0, 0, 0, 0, 0, 0, 0, 0, 0, 0, 0, 0, 56, 0, 0,
    0, 5, 0, 0, 0, 25, 255, 255, 255, 255, 115, 22, 119, 220, 0, 0, 0, 0, 20, 254, 102, 224, 0, 0,
    0, 0, 22, 56, 64, 248, 0, 0, 0, 0, 22, 231, 138, 104, 0, 0, 0, 0, 24, 33, 93, 120, 0, 0, 0, 0,
    24, 199, 108, 104, 0, 0, 0, 0, 26, 1, 63, 120, 0, 0, 0, 0, 26, 167, 78, 104, 0, 0, 0, 0, 27,
    225, 33, 120, 0, 0, 0, 0, 28, 135, 48, 104, 0, 0, 0, 0, 29, 193, 3, 120, 0, 0, 0, 0, 30, 121,
    142, 112, 0, 0, 0, 0, 31, 151, 170, 248, 0, 0, 0, 0, 32, 89, 112, 112, 0, 0, 0, 0, 33, 128,
    199, 120, 0, 0, 0, 0, 34, 66, 140, 240, 0, 0, 0, 0, 35, 105, 227, 248, 0, 0, 0, 0, 36, 34,
    110, 240, 0, 0, 0, 0, 37, 73, 197, 248, 0, 0, 0, 0, 37, 239, 219, 240, 0, 0, 0, 0, 39, 41,
    167, 248, 0, 0, 0, 0, 39, 207, 189, 240, 0, 0, 0, 0, 41, 9, 137, 248, 0, 0, 0, 0, 41, 175,
    159, 240, 0, 0, 0, 0, 42, 233, 107, 248, 0, 0, 0, 0, 43, 152, 188, 112, 0, 0, 0, 0, 44, 210,
    136, 120, 0, 0, 0, 0, 45, 120, 158, 112, 0, 0, 0, 0, 46, 178, 106, 120, 0, 0, 0, 0, 47, 88,
    128, 112, 0, 0, 0, 0, 48, 146, 76, 120, 0, 0, 0, 0, 49, 93, 76, 112, 0, 0, 0, 0, 50, 114, 46,
    120, 0, 0, 0, 0, 51, 61, 46, 112, 0, 0, 0, 0, 52, 82, 16, 120, 0, 0, 0, 0, 53, 29, 16, 112, 0,
    0, 0, 0, 54, 49, 242, 120, 0, 0, 0, 0, 54, 252, 242, 112, 0, 0, 0, 0, 56, 27, 14, 248, 0, 0,
    0, 0, 56, 220, 212, 112, 0, 0, 0, 0, 57, 167, 226, 120, 0, 0, 0, 0, 58, 188, 182, 112, 0, 0,
    0, 0, 59, 218, 210, 248, 0, 0, 0, 0, 60, 165, 210, 240, 0, 0, 0, 0, 61, 186, 180, 248, 0, 0,
    0, 0, 62, 133, 180, 240, 0, 0, 0, 0, 63, 154, 150, 248, 0, 0, 0, 0, 64, 101, 150, 240, 0, 0,
    0, 0, 65, 131, 179, 120, 0, 0, 0, 0, 66, 69, 120, 240, 0, 0, 0, 0, 67, 99, 149, 120, 0, 0, 0,
    0, 68, 46, 149, 112, 0, 0, 0, 0, 69, 67, 119, 120, 0, 0, 0, 0, 70, 5, 60, 240, 0, 0, 0, 0, 71,
    35, 89, 120, 0, 0, 0, 0, 71, 247, 147, 240, 1, 3, 2, 3, 2, 3, 2, 3, 2, 3, 4, 3, 4, 3, 4, 3, 4,
    3, 4, 3, 4, 3, 4, 3, 4, 3, 4, 3, 4, 3, 4, 3, 4, 3, 4, 3, 4, 3, 4, 3, 4, 3, 4, 3, 4, 3, 4, 3,
    4, 3, 4, 3, 4, 3, 4, 3, 0, 0, 149, 36, 0, 0, 0, 0, 140, 160, 0, 4, 0, 0, 161, 184, 1, 9, 0, 0,
    147, 168, 0, 15, 0, 0, 154, 176, 1, 21, 76, 77, 84, 0, 65, 69, 83, 84, 0, 43, 49, 49, 51, 48,
    0, 43, 49, 48, 51, 48, 0, 43, 49, 49, 0, 10, 60, 43, 49, 48, 51, 48, 62, 45, 49, 48, 58, 51,
    48, 60, 43, 49, 49, 62, 45, 49, 49, 44, 77, 49, 48, 46, 49, 46, 48, 44, 77, 52, 46, 49, 46,
    48, 10,
];

/// `Australia/Melbourne`.
#[verifier::opaque]
pub const AUSTRALIA_MELBOURNE: [u8; 904] = [
    84, 90, 105, 102, 50, 0, 0, 0, 0, 0, 0, 0, 0, 0, 0, 0, 0, 0, 0, 0, 0, 0, 0, 0, 0, 0, 0, 0, 0,
    0, 0, 0, 0, 0, 0, 0, 0, 0, 0, 1, 0, 0, 0, 1, 0, 0, 0, 0, 0, 0, 0, 84, 90, 105, 102, 50, 0, 0,
    0, 0, 0, 0, 0, 0, 0, 0, 0, 0, 0, 0, 0, 0, 0, 0, 0, 0, 0, 0, 0, 0, 0, 0, 0, 0, 0, 0, 83, 0, 0,
    0, 3, 0, 0, 0, 14, 255, 255, 255, 255, 115, 22, 133, 24, 255, 255, 255, 255, 156, 78, 194,
    128, 255, 255, 255, 255, 156, 188, 47, 0, 255, 255, 255, 255, 203, 84, 179, 0, 255, 255, 255,
    255, 203, 199, 101, 128, 255, 255, 255, 255, 204, 183, 86, 128, 255, 255, 255, 255, 205, 167,
    71, 128, 255, 255, 255, 255, 206, 160, 115, 0, 255, 255, 255, 255, 207, 135, 41, 128, 0, 0, 0,
    0, 3, 112, 57, 128, 0, 0, 0, 0, 4, 13, 28, 0, 0, 0, 0, 0, 5, 80, 27, 128, 0, 0, 0, 0, 5, 246,
    56, 128, 0, 0, 0, 0, 7, 47, 253, 128, 0, 0, 0, 0, 7, 214, 26, 128, 0, 0, 0, 0, 9, 15, 223,
    128, 0, 0, 0, 0, 9, 181, 252, 128, 0, 0, 0, 0, 10, 239, 193, 128, 0, 0, 0, 0, 11, 159, 25, 0,
    0, 0, 0, 0, 12, 216, 222, 0, 0, 0, 0, 0, 13, 126, 251, 0, 0, 0, 0, 0, 14, 184, 192, 0, 0, 0,
    0, 0, 15, 94, 221, 0, 0, 0, 0, 0, 16, 152, 162, 0, 0, 0, 0, 0, 17, 62, 191, 0, 0, 0, 0, 0, 18,
    120, 132, 0, 0, 0, 0, 0, 19, 30, 161, 0, 0, 0, 0, 0, 20, 88, 102, 0, 0, 0, 0, 0, 20, 254, 131,
    0, 0, 0, 0, 0, 22, 56, 72, 0, 0, 0, 0, 0, 22, 231, 159, 128, 0, 0, 0, 0, 24, 33, 100, 128, 0,
    0, 0, 0, 24, 199, 129, 128, 0, 0, 0, 0, 26, 1, 70, 128, 0, 0, 0, 0, 26, 167, 99, 128, 0, 0, 0,
    0, 27, 225, 40, 128, 0, 0, 0, 0, 28, 135, 69, 128, 0, 0, 0, 0, 29, 193, 10, 128, 0, 0, 0, 0,
    30, 121, 156, 128, 0, 0, 0, 0, 31, 151, 178, 0, 0, 0, 0, 0, 32, 89, 126, 128, 0, 0, 0, 0, 33,
    119, 148, 0, 0, 0, 0, 0, 34, 66, 155, 0, 0, 0, 0, 0, 35, 105, 235, 0, 0, 0, 0, 0, 36, 34, 125,
    0, 0, 0, 0, 0, 37, 73, 205, 0, 0, 0, 0, 0, 38, 2, 95, 0, 0, 0, 0, 0, 39, 41, 175, 0, 0, 0, 0,
    0, 39, 207, 204, 0, 0, 0, 0, 0, 41, 9, 145, 0, 0, 0, 0, 0, 41, 175, 174, 0, 0, 0, 0, 0, 42,
    233, 115, 0, 0, 0, 0, 0, 43, 152, 202, 128, 0, 0, 0, 0, 44, 210, 143, 128, 0, 0, 0, 0, 45,
    120, 172, 128, 0, 0, 0, 0, 46, 178, 113, 128, 0, 0, 0, 0, 47, 116, 62, 0, 0, 0, 0, 0, 48, 146,
    83, 128, 0, 0, 0, 0, 49, 93, 90, 128, 0, 0, 0, 0, 50, 114, 53, 128, 0, 0, 0, 0, 51, 61, 60,
    128, 0, 0, 0, 0, 52, 82, 23, 128, 0, 0, 0, 0, 53, 29, 30, 128, 0, 0, 0, 0, 54, 49, 249, 128,
    0, 0, 0, 0, 54, 253, 0, 128, 0, 0, 0, 0, 56, 27, 22, 0, 0, 0, 0, 0, 56, 220, 226, 128, 0, 0,
    0, 0, 57, 167, 233, 128, 0, 0, 0, 0, 58, 188, 196, 128, 0, 0, 0, 0, 59, 218, 218, 0, 0, 0, 0,
    0, 60, 165, 225, 0, 0, 0, 0, 0, 61, 186, 188, 0, 0, 0, 0, 0, 62, 133, 195, 0, 0, 0, 0, 0, 63,
    154, 158, 0, 0, 0, 0, 0, 64, 101, 165, 0, 0, 0, 0, 0, 65, 131, 186, 128, 0, 0, 0, 0, 66, 69,
    135, 0, 0, 0, 0, 0, 67, 99, 156, 128, 0, 0, 0, 0, 68, 46, 163, 128, 0, 0, 0, 0, 69, 67, 126,
    128, 0, 0, 0, 0, 70, 5, 75, 0, 0, 0, 0, 0, 71, 35, 96, 128, 0, 0, 0, 0, 71, 247, 162, 0, 2, 1,
    2, 1, 2, 1, 2, 1, 2, 1, 2, 1, 2, 1, 2, 1, 2, 1, 2, 1, 2, 1, 2, 1, 2, 1, 2, 1, 2, 1, 2, 1, 2,
    1, 2, 1, 2, 1, 2, 1, 2, 1, 2, 1, 2, 1, 2, 1, 2, 1, 2, 1, 2, 1, 2, 1, 2, 1, 2, 1, 2, 1, 2, 1,
    2, 1, 2, 1, 2, 1, 2, 1, 2, 1, 2, 1, 2, 1, 2, 1, 2, 1, 2, 0, 0, 135, 232, 0, 0, 0, 0, 154, 176,
    1, 4, 0, 0, 140, 160, 0, 9, 76, 77, 84, 0, 65, 69, 68, 84, 0, 65, 69, 83, 84, 0, 10, 65, 69,
    83, 84, 45, 49, 48, 65, 69, 68, 84, 44, 77, 49, 48, 46, 49, 46, 48, 44, 77, 52, 46, 49, 46,
    48, 47, 51, 10,
];

/// `Australia/Perth`.
#[verifier::opaque]
pub const AUSTRALIA_PERTH: [u8; 306] = [
    84, 90, 105, 102, 50, 0, 0, 0, 0, 0, 0, 0, 0, 0, 0, 0, 0, 0, 0, 0, 0, 0, 0, 0, 0, 0, 0, 0, 0,
    0, 0, 0, 0, 0, 0, 0, 0, 0, 0, 1, 0, 0, 0, 1, 0, 0, 0, 0, 0, 0, 0, 84, 90, 105, 102, 50, 0, 0,
    0, 0, 0, 0, 0, 0, 0, 0, 0, 0, 0, 0, 0, 0, 0, 0, 0, 0, 0, 0, 0, 0, 0, 0, 0, 0, 0, 0, 19, 0, 0,
    0, 3, 0, 0, 0, 14, 255, 255, 255, 255, 116, 166, 22, 228, 255, 255, 255, 255, 156, 78, 222,
    160, 255, 255, 255, 255, 156, 188, 75, 32, 255, 255, 255, 255, 203, 84, 207, 32, 255, 255,
    255, 255, 203, 199, 129, 160, 255, 255, 255, 255, 204, 183, 114, 160, 255, 255, 255, 255, 205,
    167, 99, 160, 0, 0, 0, 0, 9, 15, 251, 160, 0, 0, 0, 0, 9, 182, 24, 160, 0, 0, 0, 0, 26, 1, 98,
    160, 0, 0, 0, 0, 26, 167, 127, 160, 0, 0, 0, 0, 41, 37, 92, 160, 0, 0, 0, 0, 41, 175, 202, 32,
    0, 0, 0, 0, 69, 113, 191, 32, 0, 0, 0, 0, 70, 5, 103, 32, 0, 0, 0, 0, 71, 35, 124, 160, 0, 0,
    0, 0, 71, 238, 131, 160, 0, 0, 0, 0, 73, 3, 94, 160, 0, 0, 0, 0, 73, 206, 101, 160, 2, 1, 2,
    1, 2, 1, 2, 1, 2, 1, 2, 1, 2, 1, 2, 1, 2, 1, 2, 0, 0, 108, 156, 0, 0, 0, 0, 126, 144, 1, 4, 0,
    0, 112, 128, 0, 9, 76, 77, 84, 0, 65, 87, 68, 84, 0, 65, 87, 83, 84, 0, 10, 65, 87, 83, 84,
    45, 56, 10,
];

/// `Australia/Sydney`.
#[verifier::opaque]
pub const AUSTRALIA_SYDNEY: [u8; 904] = [
    84, 90, 105, 102, 50, 0, 0, 0, 0, 0, 0, 0, 0, 0, 0, 0, 0, 0, 0, 0, 0, 0, 0, 0, 0, 0, 0, 0, 0,
    0, 0, 0, 0, 0, 0, 0, 0, 0, 0, 1, 0, 0, 0, 1, 0, 0, 0, 0, 0, 0, 0, 84, 90, 105, 102, 50, 0, 0,
    0, 0, 0, 0, 0, 0, 0, 0, 0, 0, 0, 0, 0, 0, 0, 0, 0, 0, 0, 0, 0, 0, 0, 0, 0, 0, 0, 0, 83, 0, 0,
    0, 3, 0, 0, 0, 14, 255, 255, 255, 255, 115, 22, 127, 60, 255, 255, 255, 255, 156, 78, 194,
    128, 255, 255, 255, 255, 156, 188, 47, 0, 255, 255, 255, 255, 203, 84, 179, 0, 255, 255, 255,
    255, 203, 199, 101, 128, 255, 255, 255, 255, 204, 183, 86, 128, 255, 255, 255, 255, 205, 167,
    71, 128, 255, 255, 255, 255, 206, 160, 115, 0, 255, 255, 255, 255, 207, 135, 41, 128, 0, 0, 0,
    0, 3, 112, 57, 128, 0, 0, 0, 0, 4, 13, 28, 0, 0, 0, 0, 0, 5, 80, 27, 128, 0, 0, 0, 0, 5, 246,
    56, 128, 0, 0, 0, 0, 7, 47, 253, 128, 0, 0, 0, 0, 7, 214, 26, 128, 0, 0, 0, 0, 9, 15, 223,
    128, 0, 0, 0, 0, 9, 181, 252, 128, 0, 0, 0, 0, 10, 239, 193, 128, 0, 0, 0, 0, 11, 159, 25, 0,
    0, 0, 0, 0, 12, 216, 222, 0, 0, 0, 0, 0, 13, 126, 251, 0, 0, 0, 0, 0, 14, 184, 192, 0, 0, 0,
    0, 0, 15, 94, 221, 0, 0, 0, 0, 0, 16, 152, 162, 0, 0, 0, 0, 0, 17, 62, 191, 0, 0, 0, 0, 0, 18,
    120, 132, 0, 0, 0, 0, 0, 19, 30, 161, 0, 0, 0, 0, 0, 20, 88, 102, 0, 0, 0, 0, 0, 20, 254, 131,
    0, 0, 0, 0, 0, 22, 56, 72, 0, 0, 0, 0, 0, 23, 12, 137, 128, 0, 0, 0, 0, 24, 33, 100, 128, 0,
    0, 0, 0, 24, 199, 129, 128, 0, 0, 0, 0, 26, 1, 70, 128, 0, 0, 0, 0, 26, 167, 99, 128, 0, 0, 0,
    0, 27, 225, 40, 128, 0, 0, 0, 0, 28, 135, 69, 128, 0, 0, 0, 0, 29, 193, 10, 128, 0, 0, 0, 0,
    30, 121, 156, 128, 0, 0, 0, 0, 31, 151, 178, 0, 0, 0, 0, 0, 32, 89, 126, 128, 0, 0, 0, 0, 33,
    128, 206, 128, 0, 0, 0, 0, 34, 66, 155, 0, 0, 0, 0, 0, 35, 105, 235, 0, 0, 0, 0, 0, 36, 34,
    125, 0, 0, 0, 0, 0, 37, 73, 205, 0, 0, 0, 0, 0, 37, 239, 234, 0, 0, 0, 0, 0, 39, 41, 175, 0,
    0, 0, 0, 0, 39, 207, 204, 0, 0, 0, 0, 0, 41, 9, 145, 0, 0, 0, 0, 0, 41, 175, 174, 0, 0, 0, 0,
    0, 42, 233, 115, 0, 0, 0, 0, 0, 43, 152, 202, 128, 0, 0, 0, 0, 44, 210, 143, 128, 0, 0, 0, 0,
    45, 120, 172, 128, 0, 0, 0, 0, 46, 178, 113, 128, 0, 0, 0, 0, 47, 88, 142, 128, 0, 0, 0, 0,
    48, 146, 83, 128, 0, 0, 0, 0, 49, 93, 90, 128, 0, 0, 0, 0, 50, 114, 53, 128, 0, 0, 0, 0, 51,
    61, 60, 128, 0, 0, 0, 0, 52, 82, 23, 128, 0, 0, 0, 0, 53, 29, 30, 128, 0, 0, 0, 0, 54, 49,
    249, 128, 0, 0, 0, 0, 54, 253, 0, 128, 0, 0, 0, 0, 56, 27, 22, 0, 0, 0, 0, 0, 56, 220, 226,
    128, 0, 0, 0, 0, 57, 167, 233, 128, 0, 0, 0, 0, 58, 188, 196, 128, 0, 0, 0, 0, 59, 218, 218,
    0, 0, 0, 0, 0, 60, 165, 225, 0, 0, 0, 0, 0, 61, 186, 188, 0, 0, 0, 0, 0, 62, 133, 195, 0, 0,
    0, 0, 0, 63, 154, 158, 0, 0, 0, 0, 0, 64, 101, 165, 0, 0, 0, 0, 0, 65, 131, 186, 128, 0, 0, 0,
    0, 66, 69, 135, 0, 0, 0, 0, 0, 67, 99, 156, 128, 0, 0, 0, 0, 68, 46, 163, 128, 0, 0, 0, 0, 69,
    67, 126, 128, 0, 0, 0, 0, 70, 5, 75, 0, 0, 0, 0, 0, 71, 35, 96, 128, 0, 0, 0, 0, 71, 247, 162,
    0, 2, 1, 2, 1, 2, 1, 2, 1, 2, 1, 2, 1, 2, 1, 2, 1, 2, 1, 2, 1, 2, 1, 2, 1, 2, 1, 2, 1, 2, 1,
    2, 1, 2, 1, 2, 1, 2, 1, 2, 1, 2, 1, 2, 1, 2, 1, 2, 1, 2, 1, 2, 1, 2, 1, 2, 1, 2, 1, 2, 1, 2,
    1, 2, 1, 2, 1, 2, 1, 2, 1, 2, 1, 2, 1, 2, 1, 2, 1, 2, 1, 2, 1, 2, 0, 0, 141, 196, 0, 0, 0, 0,
    154, 176, 1, 4, 0, 0, 140, 160, 0, 9, 76, 77, 84, 0, 65, 69, 68, 84, 0, 65, 69, 83, 84, 0, 10,
    65, 69, 83, 84, 45, 49, 48, 65, 69, 68, 84, 44, 77, 49, 48, 46, 49, 46, 48, 44, 77, 52, 46,
    49, 46, 48, 47, 51, 10,
];

/// `Etc/GMT`.
#[verifier::opaque]
pub const ETC_GMT: [u8; 111] = [
    84, 90, 105, 102, 50, 0, 0, 0, 0, 0, 0, 0, 0, 0, 0, 0, 0, 0, 0, 0, 0, 0, 0, 0, 0, 0, 0, 0, 0,
    0, 0, 0, 0, 0, 0, 0, 0, 0, 0, 1, 0, 0, 0, 1, 0, 0, 0, 0, 0, 0, 0, 84, 90, 105, 102, 50, 0, 0,
    0, 0, 0, 0, 0, 0, 0, 0, 0, 0, 0, 0, 0, 0, 0, 0, 0, 0, 0, 0, 0, 0, 0, 0, 0, 0, 0, 0, 0, 0, 0,
    0, 1, 0, 0, 0, 4, 0, 0, 0, 0, 0, 0, 71, 77, 84, 0, 10, 71, 77, 84, 48, 10,
];

/// `Etc/GMT+1`.
#[verifier::opaque]
pub const ETC_GMT_PLUS_1: [u8; 113] = [
    84, 90, 105, 102, 50, 0, 0, 0, 0, 0, 0, 0, 0, 0, 0, 0, 0, 0, 0, 0, 0, 0, 0, 0, 0, 0, 0, 0, 0,
    0, 0, 0, 0, 0, 0, 0, 0, 0, 0, 1, 0, 0, 0, 1, 0, 0, 0, 0, 0, 0, 0, 84, 90, 105, 102, 50, 0, 0,
    0, 0, 0, 0, 0, 0, 0, 0, 0, 0, 0, 0, 0, 0, 0, 0, 0, 0, 0, 0, 0, 0, 0, 0, 0, 0, 0, 0, 0, 0, 0,
    0, 1, 0, 0, 0, 4, 255, 255, 241, 240, 0, 0, 45, 48, 49, 0, 10, 60, 45, 48, 49, 62, 49, 10,
];

/// `Etc/GMT+10`.
#[verifier::opaque]
pub const ETC_GMT_PLUS_10: [u8; 114] = [
    84, 90, 105, 102, 50, 0, 0, 0, 0, 0, 0, 0, 0, 0, 0, 0, 0, 0, 0, 0, 0, 0, 0, 0, 0, 0, 0, 0, 0,
    0, 0, 0, 0, 0, 0, 0, 0, 0, 0, 1, 0, 0, 0, 1, 0, 0, 0, 0, 0, 0, 0, 84, 90, 105, 102, 50, 0, 0,
    0, 0, 0, 0, 0, 0, 0, 0, 0, 0, 0, 0, 0, 0, 0, 0, 0, 0, 0, 0, 0, 0, 0, 0, 0, 0, 0, 0, 0, 0, 0,
    0, 1, 0, 0, 0, 4, 255, 255, 115, 96, 0, 0, 45, 49, 48, 0, 10, 60, 45, 49, 48, 62, 49, 48, 10,
];

/// `Etc/GMT+11`.
#[verifier::opaque]
pub const ETC_GMT_PLUS_11: [u8; 114] = [
    84, 90, 105, 102, 50, 0, 0, 0, 0, 0, 0, 0, 0, 0, 0, 0, 0, 0, 0, 0, 0, 0, 0, 0, 0, 0, 0, 0, 0,
    0, 0, 0, 0, 0, 0, 0, 0, 0, 0, 1, 0, 0, 0, 1, 0, 0, 0, 0, 0, 0, 0, 84, 90, 105, 102, 50, 0, 0,
    0, 0, 0, 0, 0, 0, 0, 0, 0, 0, 0, 0, 0, 0, 0, 0, 0, 0, 0, 0, 0, 0, 0, 0, 0, 0, 0, 0, 0, 0, 0,
    0, 1, 0, 0, 0, 4, 255, 255, 101, 80, 0, 0, 45, 49, 49, 0, 10, 60, 45, 49, 49, 62, 49, 49, 10,
];

/// `Etc/GMT+12`.
#[verifier::opaque]
pub const ETC_GMT_PLUS_12: [u8; 114] = [
    84, 90, 105, 102, 50, 0, 0, 0, 0, 0, 0, 0, 0, 0, 0, 0, 0, 0, 0, 0, 0, 0, 0, 0, 0, 0, 0, 0, 0,
    0, 0, 0, 0, 0, 0, 0, 0, 0, 0, 1, 0, 0, 0, 1, 0, 0, 0, 0, 0, 0, 0, 84, 90, 105, 102, 50, 0, 0,
    0, 0, 0, 0, 0, 0, 0, 0, 0, 0, 0, 0, 0, 0, 0, 0, 0, 0, 0, 0, 0, 0, 0, 0, 0, 0, 0, 0, 0, 0, 0,
    0, 1, 0, 0, 0, 4, 255, 255, 87, 64, 0, 0, 45, 49, 50, 0, 10, 60, 45, 49, 50, 62, 49, 50, 10,
];

/// `Etc/GMT+2`.
#[verifier::opaque]
pub const ETC_GMT_PLUS_2: [u8; 113] = [
    84, 90, 105, 102, 50, 0, 0, 0, 0, 0, 0, 0, 0, 0, 0, 0, 0, 0, 0, 0, 0, 0, 0, 0, 0, 0, 0, 0, 0,
    0, 0, 0, 0, 0, 0, 0, 0, 0, 0, 1, 0, 0, 0, 1, 0, 0, 0, 0, 0, 0, 0, 84, 90, 105, 102, 50, 0, 0,
    0, 0, 0, 0, 0, 0, 0, 0, 0, 0, 0, 0, 0, 0, 0, 0, 0, 0, 0, 0, 0, 0, 0, 0, 0, 0, 0, 0, 0, 0, 0,
    0, 1, 0, 0, 0, 4, 255, 255, 227, 224, 0, 0, 45, 48, 50, 0, 10, 60, 45, 48, 50, 62, 50, 10,
];

/// `Etc/GMT+3`.
#[verifier::opaque]
pub const ETC_GMT_PLUS_3: [u8; 113] = [
    84, 90, 105, 102, 50, 0, 0, 0, 0, 0, 0, 0, 0, 0, 0, 0, 0, 0, 0, 0, 0, 0, 0, 0, 0, 0, 0, 0, 0,
    0, 0, 0, 0, 0, 0, 0, 0, 0, 0, 1, 0, 0, 0, 1, 0, 0, 0, 0, 0, 0, 0, 84, 90, 105, 102, 50, 0, 0,
    0, 0, 0, 0, 0, 0, 0, 0, 0, 0, 0, 0, 0, 0, 0, 0, 0, 0, 0, 0, 0, 0, 0, 0, 0, 0, 0, 0, 0, 0, 0,
    0, 1, 0, 0, 0, 4, 255, 255, 213, 208, 0, 0, 45, 48, 51, 0, 10, 60, 45, 48, 51, 62, 51, 10,
];

/// `Etc/GMT+4`.
#[verifier::opaque]
pub const ETC_GMT_PLUS_4: [u8; 113] = [
    84, 90, 105, 102, 50, 0, 0, 0, 0, 0, 0, 0, 0, 0, 0, 0, 0, 0, 0, 0, 0, 0, 0, 0, 0, 0, 0, 0, 0,
    0, 0, 0, 0, 0, 0, 0, 0, 0, 0, 1, 0, 0, 0, 1, 0, 0, 0, 0, 0, 0, 0, 84, 90, 105, 102, 50, 0, 0,
    0, 0, 0, 0, 0, 0, 0, 0, 0, 0, 0, 0, 0, 0, 0, 0, 0, 0, 0, 0, 0, 0, 0, 0, 0, 0, 0, 0, 0, 0, 0,
    0, 1, 0, 0, 0, 4, 255, 255, 199, 192, 0, 0, 45, 48, 52, 0, 10, 60, 45, 48, 52, 62, 52, 10,
];

/// `Etc/GMT+5`.
#[verifier::opaque]
pub const ETC_GMT_PLUS_5: [u8; 113] = [
    84, 90, 105, 102, 50, 0, 0, 0, 0, 0, 0, 0, 0, 0, 0, 0, 0, 0, 0, 0, 0, 0, 0, 0, 0, 0, 0, 0, 0,
    0, 0, 0, 0, 0, 0, 0, 0, 0, 0, 1, 0, 0, 0, 1, 0, 0, 0, 0, 0, 0, 0, 84, 90, 105, 102, 50, 0, 0,
    0, 0, 0, 0, 0, 0, 0, 0, 0, 0, 0, 0, 0, 0, 0, 0, 0, 0, 0, 0, 0, 0, 0, 0, 0, 0, 0, 0, 0, 0, 0,
    0, 1, 0, 0, 0, 4, 255, 255, 185, 176, 0, 0, 45, 48, 53, 0, 10, 60, 45, 48, 53, 62, 53, 10,
];

/// `Etc/GMT+6`.
#[verifier::opaque]
pub const ETC_GMT_PLUS_6: [u8; 113] = [
    84, 90, 105, 102, 50, 0, 0, 0, 0, 0, 0, 0, 0, 0, 0, 0, 0, 0, 0, 0, 0, 0, 0, 0, 0, 0, 0, 0, 0,
    0, 0, 0, 0, 0, 0, 0, 0, 0, 0, 1, 0, 0, 0, 1, 0, 0, 0, 0, 0, 0, 0, 84, 90, 105, 102, 50, 0, 0,
    0, 0, 0, 0, 0, 0, 0, 0, 0, 0, 0, 0, 0, 0, 0, 0, 0, 0, 0, 0, 0, 0, 0, 0, 0, 0, 0, 0, 0, 0, 0,
    0, 1, 0, 0, 0, 4, 255, 255, 171, 160, 0, 0, 45, 48, 54, 0, 10, 60, 45, 48, 54, 62, 54, 10,
];

/// `Etc/GMT+7`.
#[verifier::opaque]
pub const ETC_GMT_PLUS_7: [u8; 113] = [
    84, 90, 105, 102, 50, 0, 0, 0, 0, 0, 0, 0, 0, 0, 0, 0, 0, 0, 0, 0, 0, 0, 0, 0, 0, 0, 0, 0, 0,
    0, 0, 0, 0, 0, 0, 0, 0, 0, 0, 1, 0, 0, 0, 1, 0, 0, 0, 0, 0, 0, 0, 84, 90, 105, 102, 50, 0, 0,
    0, 0, 0, 0, 0, 0, 0, 0, 0, 0, 0, 0, 0, 0, 0, 0, 0, 0, 0, 0, 0, 0, 0, 0, 0, 0, 0, 0, 0, 0, 0,
    0, 1, 0, 0, 0, 4, 255, 255, 157, 144, 0, 0, 45, 48, 55, 0, 10, 60, 45, 48, 55, 62, 55, 10,
];

/// `Etc/GMT+8`.
#[verifier::opaque]
pub const ETC_GMT_PLUS_8: [u8; 113] = [
    84, 90, 105, 102, 50, 0, 0, 0, 0, 0, 0, 0, 0, 0, 0, 0, 0, 0, 0, 0, 0, 0, 0, 0, 0, 0, 0, 0, 0,
    0, 0, 0, 0, 0, 0, 0, 0, 0, 0, 1, 0, 0, 0, 1, 0, 0, 0, 0, 0, 0, 0, 84, 90, 105, 102, 50, 0, 0,
    0, 0, 0, 0, 0, 0, 0, 0, 0, 0, 0, 0, 0, 0, 0, 0, 0, 0, 0, 0, 0, 0, 0, 0, 0, 0, 0, 0, 0, 0, 0,
    0, 1, 0, 0, 0, 4, 255, 255, 143, 128, 0, 0, 45, 48, 56, 0, 10, 60, 45, 48, 56, 62, 56, 10,
];

/// `Etc/GMT+9`.
#[verifier::opaque]
pub const ETC_GMT_PLUS_9: [u8; 113] = [
    84, 90, 105, 102, 50, 0, 0, 0, 0, 0, 0, 0, 0, 0, 0, 0, 0, 0, 0, 0, 0, 0, 0, 0, 0, 0, 0, 0, 0,
    0, 0, 0, 0, 0, 0, 0, 0, 0, 0, 1, 0, 0, 0, 1, 0, 0, 0, 0, 0, 0, 0, 84, 90, 105, 102, 50, 0, 0,
    0, 0, 0, 0, 0, 0, 0, 0, 0, 0, 0, 0, 0, 0, 0, 0, 0, 0, 0, 0, 0, 0, 0, 0, 0, 0, 0, 0, 0, 0, 0,
    0, 1, 0, 0, 0, 4, 255, 255, 129, 112, 0, 0, 45, 48, 57, 0, 10, 60, 45, 48, 57, 62, 57, 10,
];

/// `Etc/GMT-1`.
#[verifier::opaque]
pub const ETC_GMT_MINUS_1: [u8; 114] = [
    84, 90, 105, 102, 50, 0, 0, 0, 0, 0, 0, 0, 0, 0, 0, 0, 0, 0, 0, 0, 0, 0, 0, 0, 0, 0, 0, 0, 0,
    0, 0, 0, 0, 0, 0, 0, 0, 0, 0, 1, 0, 0, 0, 1, 0, 0, 0, 0, 0, 0, 0, 84, 90, 105, 102, 50, 0, 0,
    0, 0, 0, 0, 0, 0, 0, 0, 0, 0, 0, 0, 0, 0, 0, 0, 0, 0, 0, 0, 0, 0, 0, 0, 0, 0, 0, 0, 0, 0, 0,
    0, 1, 0, 0, 0, 4, 0, 0, 14, 16, 0, 0, 43, 48, 49, 0, 10, 60, 43, 48, 49, 62, 45, 49, 10,
];

/// `Etc/GMT-10`.
#[verifier::opaque]
pub const ETC_GMT_MINUS_10: [u8; 115] = [
    84, 90, 105, 102, 50, 0, 0, 0, 0, 0, 0, 0, 0, 0, 0, 0, 0, 0, 0, 0, 0, 0, 0, 0, 0, 0, 0, 0, 0,
    0, 0, 0, 0, 0, 0, 0, 0, 0, 0, 1, 0, 0, 0, 1, 0, 0, 0, 0, 0, 0, 0, 84, 90, 105, 102, 50, 0, 0,
    0, 0, 0, 0, 0, 0, 0, 0, 0, 0, 0, 0, 0, 0, 0, 0, 0, 0, 0, 0, 0, 0, 0, 0, 0, 0, 0, 0, 0, 0, 0,
    0, 1, 0, 0, 0, 4, 0, 0, 140, 160, 0, 0, 43, 49, 48, 0, 10, 60, 43, 49, 48, 62, 45, 49, 48, 10,
];

/// `Etc/GMT-11`.
#[verifier::opaque]
pub const ETC_GMT_MINUS_11: [u8; 115] = [
    84, 90, 105, 102, 50, 0, 0, 0, 0, 0, 0, 0, 0, 0, 0, 0, 0, 0, 0, 0, 0, 0, 0, 0, 0, 0, 0, 0, 0,
    0, 0, 0, 0, 0, 0, 0, 0, 0, 0, 1, 0, 0, 0, 1, 0, 0, 0, 0, 0, 0, 0, 84, 90, 105, 102, 50, 0, 0,
    0, 0, 0, 0, 0, 0, 0, 0, 0, 0, 0, 0, 0, 0, 0, 0, 0, 0, 0, 0, 0, 0, 0, 0, 0, 0, 0, 0, 0, 0, 0,
    0, 1, 0, 0, 0, 4, 0, 0, 154, 176, 0, 0, 43, 49, 49, 0, 10, 60, 43, 49, 49, 62, 45, 49, 49, 10,
];

/// `Etc/GMT-12`.
#[verifier::opaque]
pub const ETC_GMT_MINUS_12: [u8; 115] = [
    84, 90, 105, 102, 50, 0, 0, 0, 0, 0, 0, 0, 0, 0, 0, 0, 0, 0, 0, 0, 0, 0, 0, 0, 0, 0, 0, 0, 0,
    0, 0, 0, 0, 0, 0, 0, 0, 0, 0, 1, 0, 0, 0, 1, 0, 0, 0, 0, 0, 0, 0, 84, 90, 105, 102, 50, 0, 0,
    0, 0, 0, 0, 0, 0, 0, 0, 0, 0, 0, 0, 0, 0, 0, 0, 0, 0, 0, 0, 0, 0, 0, 0, 0, 0, 0, 0, 0, 0, 0,
    0, 1, 0, 0, 0, 4, 0, 0, 168, 192, 0, 0, 43, 49, 50, 0, 10, 60, 43, 49, 50, 62, 45, 49, 50, 10,
];

/// `Etc/GMT-13`.
#[verifier::opaque]
pub const ETC_GMT_MINUS_13: [u8; 115] = [
    84, 90, 105, 102, 50, 0, 0, 0, 0, 0, 0, 0, 0, 0, 0, 0, 0, 0, 0, 0, 0, 0, 0, 0, 0, 0, 0, 0, 0,
    0, 0, 0, 0, 0, 0, 0, 0, 0, 0, 1, 0, 0, 0, 1, 0, 0, 0, 0, 0, 0, 0, 84, 90, 105, 102, 50, 0, 0,
    0, 0, 0, 0, 0, 0, 0, 0, 0, 0, 0, 0, 0, 0, 0, 0, 0, 0, 0, 0, 0, 0, 0, 0, 0, 0, 0, 0, 0, 0, 0,
    0, 1, 0, 0, 0, 4, 0, 0, 182, 208, 0, 0, 43, 49, 51, 0, 10, 60, 43, 49, 51, 62, 45, 49, 51, 10,
];

/// `Etc/GMT-14`.
#[verifier::opaque]
pub const ETC_GMT_MINUS_14: [u8; 115] = [
    84, 90, 105, 102, 50, 0, 0, 0, 0, 0, 0, 0, 0, 0, 0, 0, 0, 0, 0, 0, 0, 0, 0, 0, 0, 0, 0, 0, 0,
    0, 0, 0, 0, 0, 0, 0, 0, 0, 0, 1, 0, 0, 0, 1, 0, 0, 0, 0, 0, 0, 0, 84, 90, 105, 102, 50, 0, 0,
    0, 0, 0, 0, 0, 0, 0, 0, 0, 0, 0, 0, 0, 0, 0, 0, 0, 0, 0, 0, 0, 0, 0, 0, 0, 0, 0, 0, 0, 0, 0,
    0, 1, 0, 0, 0, 4, 0, 0, 196, 224, 0, 0, 43, 49, 52, 0, 10, 60, 43, 49, 52, 62, 45, 49, 52, 10,
];

/// `Etc/GMT-2`.
#[verifier::opaque]
pub const ETC_GMT_MINUS_2: [u8; 114] = [
    84, 90, 105, 102, 50, 0, 0, 0, 0, 0, 0, 0, 0, 0, 0, 0, 0, 0, 0, 0, 0, 0, 0, 0, 0, 0, 0, 0, 0,
    0, 0, 0, 0, 0, 0, 0, 0, 0, 0, 1, 0, 0, 0, 1, 0, 0, 0, 0, 0, 0, 0, 84, 90, 105, 102, 50, 0, 0,
    0, 0, 0, 0, 0, 0, 0, 0, 0, 0, 0, 0, 0, 0, 0, 0, 0, 0, 0, 0, 0, 0, 0, 0, 0, 0, 0, 0, 0, 0, 0,
    0, 1, 0, 0, 0, 4, 0, 0, 28, 32, 0, 0, 43, 48, 50, 0, 10, 60, 43, 48, 50, 62, 45, 50, 10,
];

/// `Etc/GMT-3`.
#[verifier::opaque]
pub const ETC_GMT_MINUS_3: [u8; 114] = [
    84, 90, 105, 102, 50, 0, 0, 0, 0, 0, 0, 0, 0, 0, 0, 0, 0, 0, 0, 0, 0, 0, 0, 0, 0, 0, 0, 0, 0,
    0, 0, 0, 0, 0, 0, 0, 0, 0, 0, 1, 0, 0, 0, 1, 0, 0, 0, 0, 0, 0, 0, 84, 90, 105, 102, 50, 0, 0,
    0, 0, 0, 0, 0, 0, 0, 0, 0, 0, 0, 0, 0, 0, 0, 0, 0, 0, 0, 0, 0, 0, 0, 0, 0, 0, 0, 0, 0, 0, 0,
    0, 1, 0, 0, 0, 4, 0, 0, 42, 48, 0, 0, 43, 48, 51, 0, 10, 60, 43, 48, 51, 62, 45, 51, 10,
];

/// `Etc/GMT-4`.
#[verifier::opaque]
pub const ETC_GMT_MINUS_4: [u8; 114] = [
    84, 90, 105, 102, 50, 0, 0, 0, 0, 0, 0, 0, 0, 0, 0, 0, 0, 0, 0, 0, 0, 0, 0, 0, 0, 0, 0, 0, 0,
    0, 0, 0, 0, 0, 0, 0, 0, 0, 0, 1, 0, 0, 0, 1, 0, 0, 0, 0, 0, 0, 0, 84, 90, 105, 102, 50, 0, 0,
    0, 0, 0, 0, 0, 0, 0, 0, 0, 0, 0, 0, 0, 0, 0, 0, 0, 0, 0, 0, 0, 0, 0, 0, 0, 0, 0, 0, 0, 0, 0,
    0, 1, 0, 0, 0, 4, 0, 0, 56, 64, 0, 0, 43, 48, 52, 0, 10, 60, 43, 48, 52, 62, 45, 52, 10,
];

/// `Etc/GMT-5`.
#[verifier::opaque]
pub const ETC_GMT_MINUS_5: [u8; 114] = [
    84, 90, 105, 102, 50, 0, 0, 0, 0, 0, 0, 0, 0, 0, 0, 0, 0, 0, 0, 0, 0, 0, 0, 0, 0, 0, 0, 0, 0,
    0, 0, 0, 0, 0, 0, 0, 0, 0, 0, 1, 0, 0, 0, 1, 0, 0, 0, 0, 0, 0, 0, 84, 90, 105, 102, 50, 0, 0,
    0, 0, 0, 0, 0, 0, 0, 0, 0, 0, 0, 0, 0, 0, 0, 0, 0, 0, 0, 0, 0, 0, 0, 0, 0, 0, 0, 0, 0, 0, 0,
    0, 1, 0, 0, 0, 4, 0, 0, 70, 80, 0, 0, 43, 48, 53, 0, 10, 60, 43, 48, 53, 62, 45, 53, 10,
];

/// `Etc/GMT-6`.
#[verifier::opaque]
pub const ETC_GMT_MINUS_6: [u8; 114] = [
    84, 90, 105, 102, 50, 0, 0, 0, 0, 0, 0, 0, 0, 0, 0, 0, 0, 0, 0, 0, 0, 0, 0, 0, 0, 0, 0, 0, 0,
    0, 0, 0, 0, 0, 0, 0, 0, 0, 0, 1, 0, 0, 0, 1, 0, 0, 0, 0, 0, 0, 0, 84, 90, 105, 102, 50, 0, 0,
    0, 0, 0, 0, 0, 0, 0, 0, 0, 0, 0, 0, 0, 0, 0, 0, 0, 0, 0, 0, 0, 0, 0, 0, 0, 0, 0, 0, 0, 0, 0,
    0, 1, 0, 0, 0, 4, 0, 0, 84, 96, 0, 0, 43, 48, 54, 0, 10, 60, 43, 48, 54, 62, 45, 54, 10,
];

/// `Etc/GMT-7`.
#[verifier::opaque]
pub const ETC_GMT_MINUS_7: [u8; 114] = [
    84, 90, 105, 102, 50, 0, 0, 0, 0, 0, 0, 0, 0, 0, 0, 0, 0, 0, 0, 0, 0, 0, 0, 0, 0, 0, 0, 0, 0,
    0, 0, 0, 0, 0, 0, 0, 0, 0, 0, 1, 0, 0, 0, 1, 0, 0, 0, 0, 0, 0, 0, 84, 90, 105, 102, 50, 0, 0,
    0, 0, 0, 0, 0, 0, 0, 0, 0, 0, 0, 0, 0, 0, 0, 0, 0, 0, 0, 0, 0, 0, 0, 0, 0, 0, 0, 0, 0, 0, 0,
    0, 1, 0, 0, 0, 4, 0, 0, 98, 112, 0, 0, 43, 48, 55, 0, 10, 60, 43, 48, 55, 62, 45, 55, 10,
];

/// `Etc/GMT-8`.
#[verifier::opaque]
pub const ETC_GMT_MINUS_8: [u8; 114] = [
    84, 90, 105, 102, 50, 0, 0, 0, 0, 0, 0, 0, 0, 0, 0, 0, 0, 0, 0, 0, 0, 0, 0, 0, 0, 0, 0, 0, 0,
    0, 0, 0, 0, 0, 0, 0, 0, 0, 0, 1, 0, 0, 0, 1, 0, 0, 0, 0, 0, 0, 0, 84, 90, 105, 102, 50, 0, 0,
    0, 0, 0, 0, 0, 0, 0, 0, 0, 0, 0, 0, 0, 0, 0, 0, 0, 0, 0, 0, 0, 0, 0, 0, 0, 0, 0, 0, 0, 0, 0,
    0, 1, 0, 0, 0, 4, 0, 0, 112, 128, 0, 0, 43, 48, 56, 0, 10, 60, 43, 48, 56, 62, 45, 56, 10,
];

/// `Etc/GMT-9`.
#[verifier::opaque]
pub const ETC_GMT_MINUS_9: [u8; 114] = [
    84, 90, 105, 102, 50, 0, 0, 0, 0, 0, 0, 0, 0, 0, 0, 0, 0, 0, 0, 0, 0, 0, 0, 0, 0, 0, 0, 0, 0,
    0, 0, 0, 0, 0, 0, 0, 0, 0, 0, 1, 0, 0, 0, 1, 0, 0, 0, 0, 0, 0, 0, 84, 90, 105, 102, 50, 0, 0,
    0, 0, 0, 0, 0, 0, 0, 0, 0, 0, 0, 0, 0, 0, 0, 0, 0, 0, 0, 0, 0, 0, 0, 0, 0, 0, 0, 0, 0, 0, 0,
    0, 1, 0, 0, 0, 4, 0, 0, 126, 144, 0, 0, 43, 48, 57, 0, 10, 60, 43, 48, 57, 62, 45, 57, 10,
];

/// `Etc/UTC`.
#[verifier::opaque]
pub const ETC_UTC: [u8; 111] = [
    84, 90, 105, 102, 50, 0, 0, 0, 0, 0, 0, 0, 0, 0, 0, 0, 0, 0, 0, 0, 0, 0, 0, 0, 0, 0, 0, 0, 0,
    0, 0, 0, 0, 0, 0, 0, 0, 0, 0, 1, 0, 0, 0, 1, 0, 0, 0, 0, 0, 0, 0, 84, 90, 105, 102, 50, 0, 0,
    0, 0, 0, 0, 0, 0, 0, 0, 0, 0, 0, 0, 0, 0, 0, 0, 0, 0, 0, 0, 0, 0, 0, 0, 0, 0, 0, 0, 0, 0, 0,
    0, 1, 0, 0, 0, 4, 0, 0, 0, 0, 0, 0, 85, 84, 67, 0, 10, 85, 84, 67, 48, 10,
];

/// `Europe/Andorra`.
#[verifier::opaque]
pub const EUROPE_ANDORRA: [u8; 389] = [
    84, 90, 105, 102, 50, 0, 0, 0, 0, 0, 0, 0, 0, 0, 0, 0, 0, 0, 0, 0, 0, 0, 0, 0, 0, 0, 0, 0, 0,
    0, 0, 0, 0, 0, 0, 0, 0, 0, 0, 1, 0, 0, 0, 1, 0, 0, 0, 0, 0, 0, 0, 84, 90, 105, 102, 50, 0, 0,
    0, 0, 0, 0, 0, 0, 0, 0, 0, 0, 0, 0, 0, 0, 0, 0, 0, 0, 0, 0, 0, 0, 0, 0, 0, 0, 0, 0, 25, 0, 0,
    0, 4, 0, 0, 0, 17, 255, 255, 255, 255, 126, 54, 179, 148, 255, 255, 255, 255, 212, 65, 219, 0,
    0, 0, 0, 0, 28, 172, 174, 16, 0, 0, 0, 0, 29, 156, 159, 16, 0, 0, 0, 0, 30, 140, 144, 16, 0,
    0, 0, 0, 31, 124, 129, 16, 0, 0, 0, 0, 32, 108, 114, 16, 0, 0, 0, 0, 33, 92, 99, 16, 0, 0, 0,
    0, 34, 76, 84, 16, 0, 0, 0, 0, 35, 60, 69, 16, 0, 0, 0, 0, 36, 44, 54, 16, 0, 0, 0, 0, 37, 28,
    39, 16, 0, 0, 0, 0, 38, 12, 24, 16, 0, 0, 0, 0, 39, 5, 67, 144, 0, 0, 0, 0, 39, 245, 52, 144,
    0, 0, 0, 0, 40, 229, 37, 144, 0, 0, 0, 0, 41, 213, 22, 144, 0, 0, 0, 0, 42, 197, 7, 144, 0, 0,
    0, 0, 43, 180, 248, 144, 0, 0, 0, 0, 44, 164, 233, 144, 0, 0, 0, 0, 45, 148, 218, 144, 0, 0,
    0, 0, 46, 132, 203, 144, 0, 0, 0, 0, 47, 116, 188, 144, 0, 0, 0, 0, 48, 100, 173, 144, 0, 0,
    0, 0, 49, 93, 217, 16, 1, 2, 3, 2, 3, 2, 3, 2, 3, 2, 3, 2, 3, 2, 3, 2, 3, 2, 3, 2, 3, 2, 3, 2,
    3, 0, 0, 1, 108, 0, 0, 0, 0, 0, 0, 0, 4, 0, 0, 14, 16, 0, 8, 0, 0, 28, 32, 1, 12, 76, 77, 84,
    0, 87, 69, 84, 0, 67, 69, 84, 0, 67, 69, 83, 84, 0, 10, 67, 69, 84, 45, 49, 67, 69, 83, 84,
    44, 77, 51, 46, 53, 46, 48, 44, 77, 49, 48, 46, 53, 46, 48, 47, 51, 10,
];

/// `Europe/Astrakhan`.
#[verifier::opaque]
pub const EUROPE_ASTRAKHAN: [u8; 726] = [
    84, 90, 105, 102, 50, 0, 0, 0, 0, 0, 0, 0, 0, 0, 0, 0, 0, 0, 0, 0, 0, 0, 0, 0, 0, 0, 0, 0, 0,
    0, 0, 0, 0, 0, 0, 0, 0, 0, 0, 1, 0, 0, 0, 1, 0, 0, 0, 0, 0, 0, 0, 84, 90, 105, 102, 50, 0, 0,
    0, 0, 0, 0, 0, 0, 0, 0, 0, 0, 0, 0, 0, 0, 0, 0, 0, 0, 0, 0, 0, 0, 0, 0, 0, 0, 0, 0, 64, 0, 0,
    0, 5, 0, 0, 0, 16, 255, 255, 255, 255, 170, 24, 69, 116, 255, 255, 255, 255, 181, 164, 11, 80,
    0, 0, 0, 0, 21, 39, 153, 192, 0, 0, 0, 0, 22, 24, 206, 48, 0, 0, 0, 0, 23, 8, 205, 64, 0, 0,
    0, 0, 23, 250, 1, 176, 0, 0, 0, 0, 24, 234, 0, 192, 0, 0, 0, 0, 25, 219, 53, 48, 0, 0, 0, 0,
    26, 204, 133, 192, 0, 0, 0, 0, 27, 188, 146, 224, 0, 0, 0, 0, 28, 172, 131, 224, 0, 0, 0, 0,
    29, 156, 116, 224, 0, 0, 0, 0, 30, 140, 101, 224, 0, 0, 0, 0, 31, 124, 86, 224, 0, 0, 0, 0,
    32, 108, 71, 224, 0, 0, 0, 0, 33, 92, 56, 224, 0, 0, 0, 0, 34, 76, 41, 224, 0, 0, 0, 0, 35,
    60, 26, 224, 0, 0, 0, 0, 36, 44, 11, 224, 0, 0, 0, 0, 37, 28, 10, 240, 0, 0, 0, 0, 38, 11,
    251, 240, 0, 0, 0, 0, 39, 5, 39, 112, 0, 0, 0, 0, 39, 245, 24, 112, 0, 0, 0, 0, 41, 212, 236,
    96, 0, 0, 0, 0, 42, 196, 235, 112, 0, 0, 0, 0, 43, 180, 220, 112, 0, 0, 0, 0, 44, 164, 205,
    112, 0, 0, 0, 0, 45, 148, 190, 112, 0, 0, 0, 0, 46, 132, 175, 112, 0, 0, 0, 0, 47, 116, 160,
    112, 0, 0, 0, 0, 48, 100, 145, 112, 0, 0, 0, 0, 49, 93, 188, 240, 0, 0, 0, 0, 50, 114, 151,
    240, 0, 0, 0, 0, 51, 61, 158, 240, 0, 0, 0, 0, 52, 82, 121, 240, 0, 0, 0, 0, 53, 29, 128, 240,
    0, 0, 0, 0, 54, 50, 91, 240, 0, 0, 0, 0, 54, 253, 98, 240, 0, 0, 0, 0, 56, 27, 120, 112, 0, 0,
    0, 0, 56, 221, 68, 240, 0, 0, 0, 0, 57, 251, 90, 112, 0, 0, 0, 0, 58, 189, 38, 240, 0, 0, 0,
    0, 59, 219, 60, 112, 0, 0, 0, 0, 60, 166, 67, 112, 0, 0, 0, 0, 61, 187, 30, 112, 0, 0, 0, 0,
    62, 134, 37, 112, 0, 0, 0, 0, 63, 155, 0, 112, 0, 0, 0, 0, 64, 102, 7, 112, 0, 0, 0, 0, 65,
    132, 28, 240, 0, 0, 0, 0, 66, 69, 233, 112, 0, 0, 0, 0, 67, 99, 254, 240, 0, 0, 0, 0, 68, 37,
    203, 112, 0, 0, 0, 0, 69, 67, 224, 240, 0, 0, 0, 0, 70, 5, 173, 112, 0, 0, 0, 0, 71, 35, 194,
    240, 0, 0, 0, 0, 71, 238, 201, 240, 0, 0, 0, 0, 73, 3, 164, 240, 0, 0, 0, 0, 73, 206, 171,
    240, 0, 0, 0, 0, 74, 227, 134, 240, 0, 0, 0, 0, 75, 174, 141, 240, 0, 0, 0, 0, 76, 204, 163,
    112, 0, 0, 0, 0, 77, 142, 111, 240, 0, 0, 0, 0, 84, 76, 29, 96, 0, 0, 0, 0, 86, 247, 20, 112,
    1, 3, 2, 3, 2, 3, 2, 3, 2, 3, 2, 3, 2, 3, 2, 3, 2, 3, 4, 1, 4, 1, 3, 4, 1, 4, 1, 4, 1, 4, 1,
    4, 1, 4, 1, 4, 1, 4, 1, 4, 1, 4, 1, 4, 1, 4, 1, 4, 1, 4, 1, 4, 1, 4, 1, 4, 1, 4, 1, 4, 1, 3,
    1, 3, 0, 0, 45, 12, 0, 0, 0, 0, 42, 48, 0, 4, 0, 0, 70, 80, 1, 8, 0, 0, 56, 64, 0, 12, 0, 0,
    56, 64, 1, 12, 76, 77, 84, 0, 43, 48, 51, 0, 43, 48, 53, 0, 43, 48, 52, 0, 10, 60, 43, 48, 52,
    62, 45, 52, 10,
];

/// `Europe/Athens`.
#[verifier::opaque]
pub const EUROPE_ATHENS: [u8; 682] = [
    84, 90, 105, 102, 50, 0, 0, 0, 0, 0, 0, 0, 0, 0, 0, 0, 0, 0, 0, 0, 0, 0, 0, 0, 0, 0, 0, 0, 0,
    0, 0, 0, 0, 0, 0, 0, 0, 0, 0, 1, 0, 0, 0, 1, 0, 0, 0, 0, 0, 0, 0, 84, 90, 105, 102, 50, 0, 0,
    0, 0, 0, 0, 0, 0, 0, 0, 0, 0, 0, 0, 0, 0, 0, 0, 0, 0, 0, 0, 0, 0, 0, 0, 0, 0, 0, 0, 55, 0, 0,
    0, 6, 0, 0, 0, 26, 255, 255, 255, 255, 116, 63, 152, 68, 255, 255, 255, 255, 155, 128, 33,
    128, 255, 255, 255, 255, 185, 124, 233, 224, 255, 255, 255, 255, 185, 198, 175, 208, 255, 255,
    255, 255, 201, 242, 99, 224, 255, 255, 255, 255, 202, 16, 168, 80, 255, 255, 255, 255, 204,
    231, 75, 16, 255, 255, 255, 255, 205, 170, 76, 240, 255, 255, 255, 255, 206, 162, 24, 224,
    255, 255, 255, 255, 207, 147, 105, 112, 255, 255, 255, 255, 223, 19, 158, 96, 255, 255, 255,
    255, 223, 183, 10, 80, 0, 0, 0, 0, 9, 236, 94, 96, 0, 0, 0, 0, 11, 24, 244, 96, 0, 0, 0, 0,
    11, 205, 174, 0, 0, 0, 0, 0, 12, 189, 159, 0, 0, 0, 0, 0, 13, 164, 85, 128, 0, 0, 0, 0, 14,
    140, 93, 128, 0, 0, 0, 0, 15, 132, 55, 128, 0, 0, 0, 0, 16, 106, 252, 16, 0, 0, 0, 0, 17, 100,
    123, 240, 0, 0, 0, 0, 18, 82, 170, 240, 0, 0, 0, 0, 19, 70, 130, 96, 0, 0, 0, 0, 20, 51, 194,
    80, 0, 0, 0, 0, 21, 35, 235, 144, 0, 0, 0, 0, 22, 19, 220, 144, 0, 0, 0, 0, 23, 3, 205, 144,
    0, 0, 0, 0, 23, 243, 190, 144, 0, 0, 0, 0, 24, 227, 175, 144, 0, 0, 0, 0, 25, 211, 160, 144,
    0, 0, 0, 0, 26, 195, 145, 144, 0, 0, 0, 0, 27, 188, 189, 16, 0, 0, 0, 0, 28, 172, 174, 16, 0,
    0, 0, 0, 29, 156, 159, 16, 0, 0, 0, 0, 30, 140, 144, 16, 0, 0, 0, 0, 31, 124, 129, 16, 0, 0,
    0, 0, 32, 108, 114, 16, 0, 0, 0, 0, 33, 92, 99, 16, 0, 0, 0, 0, 34, 76, 84, 16, 0, 0, 0, 0,
    35, 60, 69, 16, 0, 0, 0, 0, 36, 44, 54, 16, 0, 0, 0, 0, 37, 28, 39, 16, 0, 0, 0, 0, 38, 12,
    24, 16, 0, 0, 0, 0, 39, 5, 67, 144, 0, 0, 0, 0, 39, 245, 52, 144, 0, 0, 0, 0, 40, 229, 37,
    144, 0, 0, 0, 0, 41, 213, 22, 144, 0, 0, 0, 0, 42, 197, 7, 144, 0, 0, 0, 0, 43, 180, 248, 144,
    0, 0, 0, 0, 44, 164, 233, 144, 0, 0, 0, 0, 45, 148, 218, 144, 0, 0, 0, 0, 46, 132, 203, 144,
    0, 0, 0, 0, 47, 116, 188, 144, 0, 0, 0, 0, 48, 100, 173, 144, 0, 0, 0, 0, 49, 93, 217, 16, 1,
    3, 2, 3, 2, 5, 4, 5, 4, 3, 2, 3, 2, 3, 2, 3, 2, 3, 2, 3, 2, 3, 2, 3, 2, 3, 2, 3, 2, 3, 2, 3,
    2, 3, 2, 3, 2, 3, 2, 3, 2, 3, 2, 3, 2, 3, 2, 3, 2, 3, 2, 3, 2, 3, 2, 0, 0, 22, 60, 0, 0, 0, 0,
    22, 60, 0, 4, 0, 0, 42, 48, 1, 8, 0, 0, 28, 32, 0, 13, 0, 0, 14, 16, 0, 17, 0, 0, 28, 32, 1,
    21, 76, 77, 84, 0, 65, 77, 84, 0, 69, 69, 83, 84, 0, 69, 69, 84, 0, 67, 69, 84, 0, 67, 69, 83,
    84, 0, 10, 69, 69, 84, 45, 50, 69, 69, 83, 84, 44, 77, 51, 46, 53, 46, 48, 47, 51, 44, 77, 49,
    48, 46, 53, 46, 48, 47, 52, 10,
];

/// `Europe/Belgrade`.
#[verifier::opaque]
pub const EUROPE_BELGRADE: [u8; 478] = [
    84, 90, 105, 102, 50, 0, 0, 0, 0, 0, 0, 0, 0, 0, 0, 0, 0, 0, 0, 0, 0, 0, 0, 0, 0, 0, 0, 0, 0,
    0, 0, 0, 0, 0, 0, 0, 0, 0, 0, 1, 0, 0, 0, 1, 0, 0, 0, 0, 0, 0, 0, 84, 90, 105, 102, 50, 0, 0,
    0, 0, 0, 0, 0, 0, 0, 0, 0, 0, 0, 0, 0, 0, 0, 0, 0, 0, 0, 0, 0, 0, 0, 0, 0, 0, 0, 0, 36, 0, 0,
    0, 3, 0, 0, 0, 13, 255, 255, 255, 255, 94, 60, 240, 72, 255, 255, 255, 255, 202, 2, 53, 224,
    255, 255, 255, 255, 204, 231, 75, 16, 255, 255, 255, 255, 205, 169, 23, 144, 255, 255, 255,
    255, 206, 162, 67, 16, 255, 255, 255, 255, 207, 146, 52, 16, 255, 255, 255, 255, 208, 130, 37,
    16, 255, 255, 255, 255, 209, 161, 140, 16, 255, 255, 255, 255, 210, 78, 64, 144, 0, 0, 0, 0,
    24, 227, 175, 144, 0, 0, 0, 0, 25, 211, 160, 144, 0, 0, 0, 0, 26, 195, 145, 144, 0, 0, 0, 0,
    27, 188, 189, 16, 0, 0, 0, 0, 28, 172, 174, 16, 0, 0, 0, 0, 29, 156, 159, 16, 0, 0, 0, 0, 30,
    140, 144, 16, 0, 0, 0, 0, 31, 124, 129, 16, 0, 0, 0, 0, 32, 108, 114, 16, 0, 0, 0, 0, 33, 92,
    99, 16, 0, 0, 0, 0, 34, 76, 84, 16, 0, 0, 0, 0, 35, 60, 69, 16, 0, 0, 0, 0, 36, 44, 54, 16, 0,
    0, 0, 0, 37, 28, 39, 16, 0, 0, 0, 0, 38, 12, 24, 16, 0, 0, 0, 0, 39, 5, 67, 144, 0, 0, 0, 0,
    39, 245, 52, 144, 0, 0, 0, 0, 40, 229, 37, 144, 0, 0, 0, 0, 41, 213, 22, 144, 0, 0, 0, 0, 42,
    197, 7, 144, 0, 0, 0, 0, 43, 180, 248, 144, 0, 0, 0, 0, 44, 164, 233, 144, 0, 0, 0, 0, 45,
    148, 218, 144, 0, 0, 0, 0, 46, 132, 203, 144, 0, 0, 0, 0, 47, 116, 188, 144, 0, 0, 0, 0, 48,
    100, 173, 144, 0, 0, 0, 0, 49, 93, 217, 16, 1, 2, 1, 2, 1, 2, 1, 2, 1, 2, 1, 2, 1, 2, 1, 2, 1,
    2, 1, 2, 1, 2, 1, 2, 1, 2, 1, 2, 1, 2, 1, 2, 1, 2, 1, 2, 0, 0, 19, 56, 0, 0, 0, 0, 14, 16, 0,
    4, 0, 0, 28, 32, 1, 8, 76, 77, 84, 0, 67, 69, 84, 0, 67, 69, 83, 84, 0, 10, 67, 69, 84, 45,
    49, 67, 69, 83, 84, 44, 77, 51, 46, 53, 46, 48, 44, 77, 49, 48, 46, 53, 46, 48, 47, 51, 10,
];

/// `Europe/Berlin`.
#[verifier::opaque]
pub const EUROPE_BERLIN: [u8; 705] = [
    84, 90, 105, 102, 50, 0, 0, 0, 0, 0, 0, 0, 0, 0, 0, 0, 0, 0, 0, 0, 0, 0, 0, 0, 0, 0, 0, 0, 0,
    0, 0, 0, 0, 0, 0, 0, 0, 0, 0, 1, 0, 0, 0, 1, 0, 0, 0, 0, 0, 0, 0, 84, 90, 105, 102, 50, 0, 0,
    0, 0, 0, 0, 0, 0, 0, 0, 0, 0, 0, 0, 0, 0, 0, 0, 0, 0, 0, 0, 0, 0, 0, 0, 0, 0, 0, 0, 60, 0, 0,
    0, 4, 0, 0, 0, 18, 255, 255, 255, 255, 111, 162, 97, 248, 255, 255, 255, 255, 155, 12, 23, 96,
    255, 255, 255, 255, 155, 213, 218, 240, 255, 255, 255, 255, 156, 217, 174, 144, 255, 255, 255,
    255, 157, 164, 181, 144, 255, 255, 255, 255, 158, 185, 144, 144, 255, 255, 255, 255, 159, 132,
    151, 144, 255, 255, 255, 255, 200, 9, 113, 144, 255, 255, 255, 255, 204, 231, 75, 16, 255,
    255, 255, 255, 205, 169, 23, 144, 255, 255, 255, 255, 206, 162, 67, 16, 255, 255, 255, 255,
    207, 146, 52, 16, 255, 255, 255, 255, 208, 130, 37, 16, 255, 255, 255, 255, 209, 114, 22, 16,
    255, 255, 255, 255, 209, 182, 150, 0, 255, 255, 255, 255, 210, 88, 190, 128, 255, 255, 255,
    255, 210, 161, 79, 16, 255, 255, 255, 255, 211, 99, 27, 144, 255, 255, 255, 255, 212, 75, 35,
    144, 255, 255, 255, 255, 213, 57, 209, 32, 255, 255, 255, 255, 213, 103, 231, 144, 255, 255,
    255, 255, 213, 168, 115, 0, 255, 255, 255, 255, 214, 41, 180, 16, 255, 255, 255, 255, 215, 44,
    26, 16, 255, 255, 255, 255, 216, 9, 150, 16, 255, 255, 255, 255, 217, 2, 193, 144, 255, 255,
    255, 255, 217, 233, 120, 16, 0, 0, 0, 0, 19, 77, 68, 16, 0, 0, 0, 0, 20, 51, 250, 144, 0, 0,
    0, 0, 21, 35, 235, 144, 0, 0, 0, 0, 22, 19, 220, 144, 0, 0, 0, 0, 23, 3, 205, 144, 0, 0, 0, 0,
    23, 243, 190, 144, 0, 0, 0, 0, 24, 227, 175, 144, 0, 0, 0, 0, 25, 211, 160, 144, 0, 0, 0, 0,
    26, 195, 145, 144, 0, 0, 0, 0, 27, 188, 189, 16, 0, 0, 0, 0, 28, 172, 174, 16, 0, 0, 0, 0, 29,
    156, 159, 16, 0, 0, 0, 0, 30, 140, 144, 16, 0, 0, 0, 0, 31, 124, 129, 16, 0, 0, 0, 0, 32, 108,
    114, 16, 0, 0, 0, 0, 33, 92, 99, 16, 0, 0, 0, 0, 34, 76, 84, 16, 0, 0, 0, 0, 35, 60, 69, 16,
    0, 0, 0, 0, 36, 44, 54, 16, 0, 0, 0, 0, 37, 28, 39, 16, 0, 0, 0, 0, 38, 12, 24, 16, 0, 0, 0,
    0, 39, 5, 67, 144, 0, 0, 0, 0, 39, 245, 52, 144, 0, 0, 0, 0, 40, 229, 37, 144, 0, 0, 0, 0, 41,
    213, 22, 144, 0, 0, 0, 0, 42, 197, 7, 144, 0, 0, 0, 0, 43, 180, 248, 144, 0, 0, 0, 0, 44, 164,
    233, 144, 0, 0, 0, 0, 45, 148, 218, 144, 0, 0, 0, 0, 46, 132, 203, 144, 0, 0, 0, 0, 47, 116,
    188, 144, 0, 0, 0, 0, 48, 100, 173, 144, 0, 0, 0, 0, 49, 93, 217, 16, 2, 1, 2, 1, 2, 1, 2, 1,
    2, 1, 2, 1, 2, 1, 3, 1, 2, 1, 2, 1, 3, 1, 2, 1, 2, 1, 2, 1, 2, 1, 2, 1, 2, 1, 2, 1, 2, 1, 2,
    1, 2, 1, 2, 1, 2, 1, 2, 1, 2, 1, 2, 1, 2, 1, 2, 1, 2, 1, 2, 1, 0, 0, 12, 136, 0, 0, 0, 0, 28,
    32, 1, 4, 0, 0, 14, 16, 0, 9, 0, 0, 42, 48, 1, 13, 76, 77, 84, 0, 67, 69, 83, 84, 0, 67, 69,
    84, 0, 67, 69, 77, 84, 0, 10, 67, 69, 84, 45, 49, 67, 69, 83, 84, 44, 77, 51, 46, 53, 46, 48,
    44, 77, 49, 48, 46, 53, 46, 48, 47, 51, 10,
];

/// `Europe/Brussels`.
#[verifier::opaque]
pub const EUROPE_BRUSSELS: [u8; 1103] = [
    84, 90, 105, 102, 50, 0, 0, 0, 0, 0, 0, 0, 0, 0, 0, 0, 0, 0, 0, 0, 0, 0, 0, 0, 0, 0, 0, 0, 0,
    0, 0, 0, 0, 0, 0, 0, 0, 0, 0, 1, 0, 0, 0, 1, 0, 0, 0, 0, 0, 0, 0, 84, 90, 105, 102, 50, 0, 0,
    0, 0, 0, 0, 0, 0, 0, 0, 0, 0, 0, 0, 0, 0, 0, 0, 0, 0, 0, 0, 0, 0, 0, 0, 0, 0, 0, 0, 102, 0, 0,
    0, 6, 0, 0, 0, 26, 255, 255, 255, 255, 86, 182, 223, 230, 255, 255, 255, 255, 109, 232, 200,
    0, 255, 255, 255, 255, 152, 68, 73, 128, 255, 255, 255, 255, 155, 12, 37, 112, 255, 255, 255,
    255, 155, 213, 218, 240, 255, 255, 255, 255, 156, 217, 174, 144, 255, 255, 255, 255, 157, 164,
    181, 144, 255, 255, 255, 255, 158, 185, 144, 144, 255, 255, 255, 255, 159, 132, 151, 144, 255,
    255, 255, 255, 159, 206, 248, 48, 255, 255, 255, 255, 160, 96, 165, 240, 255, 255, 255, 255,
    161, 126, 187, 112, 255, 255, 255, 255, 162, 46, 18, 240, 255, 255, 255, 255, 163, 122, 76,
    240, 255, 255, 255, 255, 164, 53, 129, 240, 255, 255, 255, 255, 165, 94, 35, 112, 255, 255,
    255, 255, 166, 37, 53, 240, 255, 255, 255, 255, 167, 39, 155, 240, 255, 255, 255, 255, 168,
    42, 1, 240, 255, 255, 255, 255, 169, 7, 125, 240, 255, 255, 255, 255, 169, 238, 52, 112, 255,
    255, 255, 255, 170, 231, 95, 240, 255, 255, 255, 255, 171, 215, 80, 240, 255, 255, 255, 255,
    172, 199, 65, 240, 255, 255, 255, 255, 173, 201, 167, 240, 255, 255, 255, 255, 174, 167, 35,
    240, 255, 255, 255, 255, 175, 160, 79, 112, 255, 255, 255, 255, 176, 135, 5, 240, 255, 255,
    255, 255, 177, 137, 107, 240, 255, 255, 255, 255, 178, 112, 76, 160, 255, 255, 255, 255, 179,
    114, 178, 160, 255, 255, 255, 255, 180, 80, 46, 160, 255, 255, 255, 255, 181, 73, 90, 32, 255,
    255, 255, 255, 182, 48, 16, 160, 255, 255, 255, 255, 183, 50, 118, 160, 255, 255, 255, 255,
    184, 15, 242, 160, 255, 255, 255, 255, 184, 255, 227, 160, 255, 255, 255, 255, 185, 239, 212,
    160, 255, 255, 255, 255, 186, 214, 139, 32, 255, 255, 255, 255, 187, 216, 241, 32, 255, 255,
    255, 255, 188, 200, 226, 32, 255, 255, 255, 255, 189, 184, 211, 32, 255, 255, 255, 255, 190,
    159, 137, 160, 255, 255, 255, 255, 191, 152, 181, 32, 255, 255, 255, 255, 192, 155, 27, 32,
    255, 255, 255, 255, 193, 120, 151, 32, 255, 255, 255, 255, 194, 104, 136, 32, 255, 255, 255,
    255, 195, 88, 121, 32, 255, 255, 255, 255, 196, 63, 47, 160, 255, 255, 255, 255, 197, 56, 91,
    32, 255, 255, 255, 255, 198, 58, 193, 32, 255, 255, 255, 255, 199, 88, 214, 160, 255, 255,
    255, 255, 199, 218, 9, 160, 255, 255, 255, 255, 200, 74, 25, 32, 255, 255, 255, 255, 204, 231,
    75, 16, 255, 255, 255, 255, 205, 169, 23, 144, 255, 255, 255, 255, 206, 162, 67, 16, 255, 255,
    255, 255, 207, 146, 52, 16, 255, 255, 255, 255, 208, 110, 94, 144, 255, 255, 255, 255, 209,
    114, 22, 16, 255, 255, 255, 255, 210, 78, 64, 144, 255, 255, 255, 255, 211, 145, 64, 16, 255,
    255, 255, 255, 212, 75, 35, 144, 0, 0, 0, 0, 13, 164, 99, 144, 0, 0, 0, 0, 14, 139, 26, 16, 0,
    0, 0, 0, 15, 132, 69, 144, 0, 0, 0, 0, 16, 116, 54, 144, 0, 0, 0, 0, 17, 100, 39, 144, 0, 0,
    0, 0, 18, 84, 24, 144, 0, 0, 0, 0, 19, 77, 68, 16, 0, 0, 0, 0, 20, 51, 250, 144, 0, 0, 0, 0,
    21, 35, 235, 144, 0, 0, 0, 0, 22, 19, 220, 144, 0, 0, 0, 0, 23, 3, 205, 144, 0, 0, 0, 0, 23,
    243, 190, 144, 0, 0, 0, 0, 24, 227, 175, 144, 0, 0, 0, 0, 25, 211, 160, 144, 0, 0, 0, 0, 26,
    195, 145, 144, 0, 0, 0, 0, 27, 188, 189, 16, 0, 0, 0, 0, 28, 172, 174, 16, 0, 0, 0, 0, 29,
    156, 159, 16, 0, 0, 0, 0, 30, 140, 144, 16, 0, 0, 0, 0, 31, 124, 129, 16, 0, 0, 0, 0, 32, 108,
    114, 16, 0, 0, 0, 0, 33, 92, 99, 16, 0, 0, 0, 0, 34, 76, 84, 16, 0, 0, 0, 0, 35, 60, 69, 16,
    0, 0, 0, 0, 36, 44, 54, 16, 0, 0, 0, 0, 37, 28, 39, 16, 0, 0, 0, 0, 38, 12, 24, 16, 0, 0, 0,
    0, 39, 5, 67, 144, 0, 0, 0, 0, 39, 245, 52, 144, 0, 0, 0, 0, 40, 229, 37, 144, 0, 0, 0, 0, 41,
    213, 22, 144, 0, 0, 0, 0, 42, 197, 7, 144, 0, 0, 0, 0, 43, 180, 248, 144, 0, 0, 0, 0, 44, 164,
    233, 144, 0, 0, 0, 0, 45, 148, 218, 144, 0, 0, 0, 0, 46, 132, 203, 144, 0, 0, 0, 0, 47, 116,
    188, 144, 0, 0, 0, 0, 48, 100, 173, 144, 0, 0, 0, 0, 49, 93, 217, 16, 1, 2, 3, 4, 3, 4, 3, 4,
    3, 2, 5, 2, 5, 2, 5, 2, 5, 2, 5, 2, 5, 2, 5, 2, 5, 2, 5, 2, 5, 2, 5, 2, 5, 2, 5, 2, 5, 2, 5,
    2, 5, 2, 5, 2, 5, 2, 5, 2, 5, 2, 5, 2, 5, 4, 3, 4, 3, 4, 3, 4, 3, 4, 3, 4, 3, 4, 3, 4, 3, 4,
    3, 4, 3, 4, 3, 4, 3, 4, 3, 4, 3, 4, 3, 4, 3, 4, 3, 4, 3, 4, 3, 4, 3, 4, 3, 4, 3, 4, 3, 4, 3,
    4, 0, 0, 4, 26, 0, 0, 0, 0, 4, 26, 0, 4, 0, 0, 0, 0, 0, 8, 0, 0, 14, 16, 0, 12, 0, 0, 28, 32,
    1, 16, 0, 0, 14, 16, 1, 21, 76, 77, 84, 0, 66, 77, 84, 0, 87, 69, 84, 0, 67, 69, 84, 0, 67,
    69, 83, 84, 0, 87, 69, 83, 84, 0, 10, 67, 69, 84, 45, 49, 67, 69, 83, 84, 44, 77, 51, 46, 53,
    46, 48, 44, 77, 49, 48, 46, 53, 46, 48, 47, 51, 10,
];

/// `Europe/Bucharest`.
#[verifier::opaque]
pub const EUROPE_BUCHAREST: [u8; 661] = [
    84, 90, 105, 102, 50, 0, 0, 0, 0, 0, 0, 0, 0, 0, 0, 0, 0, 0, 0, 0, 0, 0, 0, 0, 0, 0, 0, 0, 0,
    0, 0, 0, 0, 0, 0, 0, 0, 0, 0, 1, 0, 0, 0, 1, 0, 0, 0, 0, 0, 0, 0, 84, 90, 105, 102, 50, 0, 0,
    0, 0, 0, 0, 0, 0, 0, 0, 0, 0, 0, 0, 0, 0, 0, 0, 0, 0, 0, 0, 0, 0, 0, 0, 0, 0, 0, 0, 55, 0, 0,
    0, 4, 0, 0, 0, 17, 255, 255, 255, 255, 108, 207, 224, 8, 255, 255, 255, 255, 183, 176, 210, 8,
    255, 255, 255, 255, 185, 62, 243, 96, 255, 255, 255, 255, 185, 239, 156, 96, 255, 255, 255,
    255, 186, 223, 141, 96, 255, 255, 255, 255, 187, 207, 126, 96, 255, 255, 255, 255, 188, 200,
    169, 224, 255, 255, 255, 255, 189, 184, 154, 224, 255, 255, 255, 255, 190, 168, 139, 224, 255,
    255, 255, 255, 191, 152, 124, 224, 255, 255, 255, 255, 192, 136, 109, 224, 255, 255, 255, 255,
    193, 120, 94, 224, 255, 255, 255, 255, 194, 104, 79, 224, 255, 255, 255, 255, 195, 88, 64,
    224, 255, 255, 255, 255, 196, 72, 49, 224, 255, 255, 255, 255, 197, 56, 34, 224, 255, 255,
    255, 255, 198, 40, 19, 224, 255, 255, 255, 255, 199, 24, 4, 224, 0, 0, 0, 0, 17, 173, 209, 96,
    0, 0, 0, 0, 18, 83, 224, 80, 0, 0, 0, 0, 19, 77, 11, 208, 0, 0, 0, 0, 20, 51, 208, 96, 0, 0,
    0, 0, 21, 35, 221, 128, 0, 0, 0, 0, 22, 19, 206, 128, 0, 0, 0, 0, 23, 3, 191, 128, 0, 0, 0, 0,
    23, 243, 176, 128, 0, 0, 0, 0, 24, 227, 161, 128, 0, 0, 0, 0, 25, 211, 146, 128, 0, 0, 0, 0,
    26, 195, 131, 128, 0, 0, 0, 0, 27, 188, 175, 0, 0, 0, 0, 0, 28, 172, 160, 0, 0, 0, 0, 0, 29,
    156, 145, 0, 0, 0, 0, 0, 30, 140, 130, 0, 0, 0, 0, 0, 31, 124, 115, 0, 0, 0, 0, 0, 32, 108,
    100, 0, 0, 0, 0, 0, 33, 92, 85, 0, 0, 0, 0, 0, 34, 76, 70, 0, 0, 0, 0, 0, 35, 60, 55, 0, 0, 0,
    0, 0, 36, 44, 40, 0, 0, 0, 0, 0, 37, 28, 25, 0, 0, 0, 0, 0, 38, 12, 10, 0, 0, 0, 0, 0, 39, 5,
    53, 128, 0, 0, 0, 0, 39, 245, 10, 96, 0, 0, 0, 0, 40, 228, 251, 96, 0, 0, 0, 0, 41, 212, 236,
    96, 0, 0, 0, 0, 42, 196, 221, 96, 0, 0, 0, 0, 43, 180, 206, 96, 0, 0, 0, 0, 44, 164, 191, 96,
    0, 0, 0, 0, 45, 148, 176, 96, 0, 0, 0, 0, 46, 132, 147, 80, 0, 0, 0, 0, 47, 116, 146, 96, 0,
    0, 0, 0, 48, 100, 117, 80, 0, 0, 0, 0, 49, 93, 174, 224, 0, 0, 0, 0, 50, 114, 123, 208, 0, 0,
    0, 0, 50, 201, 140, 224, 1, 3, 2, 3, 2, 3, 2, 3, 2, 3, 2, 3, 2, 3, 2, 3, 2, 3, 2, 3, 2, 3, 2,
    3, 2, 3, 2, 3, 2, 3, 2, 3, 2, 3, 2, 3, 2, 3, 2, 3, 2, 3, 2, 3, 2, 3, 2, 3, 2, 3, 2, 3, 2, 3,
    3, 0, 0, 24, 120, 0, 0, 0, 0, 24, 120, 0, 4, 0, 0, 42, 48, 1, 8, 0, 0, 28, 32, 0, 13, 76, 77,
    84, 0, 66, 77, 84, 0, 69, 69, 83, 84, 0, 69, 69, 84, 0, 10, 69, 69, 84, 45, 50, 69, 69, 83,
    84, 44, 77, 51, 46, 53, 46, 48, 47, 51, 44, 77, 49, 48, 46, 53, 46, 48, 47, 52, 10,
];

/// `Europe/Budapest`.
#[verifier::opaque]
pub const EUROPE_BUDAPEST: [u8; 766] = [
    84, 90, 105, 102, 50, 0, 0, 0, 0, 0, 0, 0, 0, 0, 0, 0, 0, 0, 0, 0, 0, 0, 0, 0, 0, 0, 0, 0, 0,
    0, 0, 0, 0, 0, 0, 0, 0, 0, 0, 1, 0, 0, 0, 1, 0, 0, 0, 0, 0, 0, 0, 84, 90, 105, 102, 50, 0, 0,
    0, 0, 0, 0, 0, 0, 0, 0, 0, 0, 0, 0, 0, 0, 0, 0, 0, 0, 0, 0, 0, 0, 0, 0, 0, 0, 0, 0, 68, 0, 0,
    0, 3, 0, 0, 0, 13, 255, 255, 255, 255, 107, 23, 145, 156, 255, 255, 255, 255, 155, 12, 23, 96,
    255, 255, 255, 255, 155, 213, 218, 240, 255, 255, 255, 255, 156, 217, 174, 144, 255, 255, 255,
    255, 157, 164, 181, 144, 255, 255, 255, 255, 158, 185, 144, 144, 255, 255, 255, 255, 159, 132,
    151, 144, 255, 255, 255, 255, 160, 154, 196, 16, 255, 255, 255, 255, 161, 100, 121, 144, 255,
    255, 255, 255, 162, 112, 26, 16, 255, 255, 255, 255, 163, 77, 150, 16, 255, 255, 255, 255,
    201, 243, 181, 96, 255, 255, 255, 255, 204, 231, 75, 16, 255, 255, 255, 255, 205, 169, 23,
    144, 255, 255, 255, 255, 206, 162, 67, 16, 255, 255, 255, 255, 207, 146, 52, 16, 255, 255,
    255, 255, 208, 130, 37, 16, 255, 255, 255, 255, 209, 153, 120, 224, 255, 255, 255, 255, 210,
    138, 201, 112, 255, 255, 255, 255, 211, 80, 166, 144, 255, 255, 255, 255, 212, 75, 21, 128,
    255, 255, 255, 255, 213, 57, 195, 16, 255, 255, 255, 255, 214, 41, 180, 16, 255, 255, 255,
    255, 215, 25, 165, 16, 255, 255, 255, 255, 216, 9, 150, 16, 255, 255, 255, 255, 217, 2, 193,
    144, 255, 255, 255, 255, 217, 233, 120, 16, 255, 255, 255, 255, 226, 162, 168, 240, 255, 255,
    255, 255, 227, 81, 242, 96, 255, 255, 255, 255, 228, 130, 167, 16, 255, 255, 255, 255, 229,
    49, 254, 144, 255, 255, 255, 255, 230, 116, 254, 16, 255, 255, 255, 255, 231, 17, 224, 144,
    255, 255, 255, 255, 232, 84, 224, 16, 255, 255, 255, 255, 232, 241, 194, 144, 0, 0, 0, 0, 19,
    77, 39, 240, 0, 0, 0, 0, 20, 51, 222, 112, 0, 0, 0, 0, 21, 35, 207, 112, 0, 0, 0, 0, 22, 19,
    192, 112, 0, 0, 0, 0, 23, 3, 177, 112, 0, 0, 0, 0, 23, 243, 162, 112, 0, 0, 0, 0, 24, 227,
    147, 112, 0, 0, 0, 0, 25, 211, 132, 112, 0, 0, 0, 0, 26, 195, 145, 144, 0, 0, 0, 0, 27, 188,
    189, 16, 0, 0, 0, 0, 28, 172, 174, 16, 0, 0, 0, 0, 29, 156, 159, 16, 0, 0, 0, 0, 30, 140, 144,
    16, 0, 0, 0, 0, 31, 124, 129, 16, 0, 0, 0, 0, 32, 108, 114, 16, 0, 0, 0, 0, 33, 92, 99, 16, 0,
    0, 0, 0, 34, 76, 84, 16, 0, 0, 0, 0, 35, 60, 69, 16, 0, 0, 0, 0, 36, 44, 54, 16, 0, 0, 0, 0,
    37, 28, 39, 16, 0, 0, 0, 0, 38, 12, 24, 16, 0, 0, 0, 0, 39, 5, 67, 144, 0, 0, 0, 0, 39, 245,
    52, 144, 0, 0, 0, 0, 40, 229, 37, 144, 0, 0, 0, 0, 41, 213, 22, 144, 0, 0, 0, 0, 42, 197, 7,
    144, 0, 0, 0, 0, 43, 180, 248, 144, 0, 0, 0, 0, 44, 164, 233, 144, 0, 0, 0, 0, 45, 148, 218,
    144, 0, 0, 0, 0, 46, 132, 203, 144, 0, 0, 0, 0, 47, 116, 188, 144, 0, 0, 0, 0, 48, 100, 173,
    144, 0, 0, 0, 0, 49, 93, 217, 16, 2, 1, 2, 1, 2, 1, 2, 1, 2, 1, 2, 1, 2, 1, 2, 1, 2, 1, 2, 1,
    2, 1, 2, 1, 2, 1, 2, 1, 2, 1, 2, 1, 2, 1, 2, 1, 2, 1, 2, 1, 2, 1, 2, 1, 2, 1, 2, 1, 2, 1, 2,
    1, 2, 1, 2, 1, 2, 1, 2, 1, 2, 1, 2, 1, 2, 1, 2, 1, 0, 0, 17, 228, 0, 0, 0, 0, 28, 32, 1, 4, 0,
    0, 14, 16, 0, 9, 76, 77, 84, 0, 67, 69, 83, 84, 0, 67, 69, 84, 0, 10, 67, 69, 84, 45, 49, 67,
    69, 83, 84, 44, 77, 51, 46, 53, 46, 48, 44, 77, 49, 48, 46, 53, 46, 48, 47, 51, 10,
];

/// `Europe/Chisinau`.
#[verifier::opaque]
pub const EUROPE_CHISINAU: [u8; 1207] = [
    84, 90, 105, 102, 50, 0, 0, 0, 0, 0, 0, 0, 0, 0, 0, 0, 0, 0, 0, 0, 0, 0, 0, 0, 0, 0, 0, 0, 0,
    0, 0, 0, 0, 0, 0, 0, 0, 0, 0, 1, 0, 0, 0, 1, 0, 0, 0, 0, 0, 0, 0, 84, 90, 105, 102, 50, 0, 0,
    0, 0, 0, 0, 0, 0, 0, 0, 0, 0, 0, 0, 0, 0, 0, 0, 0, 0, 0, 0, 0, 0, 0, 0, 0, 0, 0, 0, 110, 0, 0,
    0, 9, 0, 0, 0, 38, 255, 255, 255, 255, 86, 182, 200, 248, 255, 255, 255, 255, 158, 107, 159,
    12, 255, 255, 255, 255, 183, 176, 210, 8, 255, 255, 255, 255, 185, 62, 243, 96, 255, 255, 255,
    255, 185, 239, 156, 96, 255, 255, 255, 255, 186, 223, 141, 96, 255, 255, 255, 255, 187, 207,
    126, 96, 255, 255, 255, 255, 188, 200, 169, 224, 255, 255, 255, 255, 189, 184, 154, 224, 255,
    255, 255, 255, 190, 168, 139, 224, 255, 255, 255, 255, 191, 152, 124, 224, 255, 255, 255, 255,
    192, 136, 109, 224, 255, 255, 255, 255, 193, 120, 94, 224, 255, 255, 255, 255, 194, 104, 79,
    224, 255, 255, 255, 255, 195, 88, 64, 224, 255, 255, 255, 255, 196, 72, 49, 224, 255, 255,
    255, 255, 197, 56, 34, 224, 255, 255, 255, 255, 198, 40, 19, 224, 255, 255, 255, 255, 199, 24,
    4, 224, 255, 255, 255, 255, 200, 188, 147, 96, 255, 255, 255, 255, 202, 119, 125, 80, 255,
    255, 255, 255, 204, 231, 75, 16, 255, 255, 255, 255, 205, 169, 23, 144, 255, 255, 255, 255,
    206, 162, 67, 16, 255, 255, 255, 255, 207, 146, 52, 16, 255, 255, 255, 255, 208, 78, 144, 96,
    0, 0, 0, 0, 21, 39, 167, 208, 0, 0, 0, 0, 22, 24, 220, 64, 0, 0, 0, 0, 23, 8, 219, 80, 0, 0,
    0, 0, 23, 250, 15, 192, 0, 0, 0, 0, 24, 234, 14, 208, 0, 0, 0, 0, 25, 219, 67, 64, 0, 0, 0, 0,
    26, 204, 147, 208, 0, 0, 0, 0, 27, 188, 160, 240, 0, 0, 0, 0, 28, 172, 145, 240, 0, 0, 0, 0,
    29, 156, 130, 240, 0, 0, 0, 0, 30, 140, 115, 240, 0, 0, 0, 0, 31, 124, 100, 240, 0, 0, 0, 0,
    32, 108, 85, 240, 0, 0, 0, 0, 33, 92, 70, 240, 0, 0, 0, 0, 34, 76, 55, 240, 0, 0, 0, 0, 35,
    60, 40, 240, 0, 0, 0, 0, 36, 44, 25, 240, 0, 0, 0, 0, 37, 28, 10, 240, 0, 0, 0, 0, 38, 11,
    251, 240, 0, 0, 0, 0, 38, 67, 76, 224, 0, 0, 0, 0, 39, 5, 53, 128, 0, 0, 0, 0, 39, 245, 38,
    128, 0, 0, 0, 0, 40, 229, 23, 128, 0, 0, 0, 0, 41, 212, 236, 96, 0, 0, 0, 0, 42, 196, 207, 80,
    0, 0, 0, 0, 43, 180, 206, 96, 0, 0, 0, 0, 44, 164, 177, 80, 0, 0, 0, 0, 45, 148, 176, 96, 0,
    0, 0, 0, 46, 132, 147, 80, 0, 0, 0, 0, 47, 116, 146, 96, 0, 0, 0, 0, 48, 100, 117, 80, 0, 0,
    0, 0, 49, 93, 174, 224, 0, 0, 0, 0, 50, 114, 123, 208, 0, 0, 0, 0, 51, 61, 173, 0, 0, 0, 0, 0,
    52, 82, 136, 0, 0, 0, 0, 0, 53, 29, 143, 0, 0, 0, 0, 0, 54, 50, 106, 0, 0, 0, 0, 0, 54, 253,
    113, 0, 0, 0, 0, 0, 56, 27, 134, 128, 0, 0, 0, 0, 56, 221, 83, 0, 0, 0, 0, 0, 57, 251, 104,
    128, 0, 0, 0, 0, 58, 189, 53, 0, 0, 0, 0, 0, 59, 219, 74, 128, 0, 0, 0, 0, 60, 166, 81, 128,
    0, 0, 0, 0, 61, 187, 44, 128, 0, 0, 0, 0, 62, 134, 51, 128, 0, 0, 0, 0, 63, 155, 14, 128, 0,
    0, 0, 0, 64, 102, 21, 128, 0, 0, 0, 0, 65, 132, 43, 0, 0, 0, 0, 0, 66, 69, 247, 128, 0, 0, 0,
    0, 67, 100, 13, 0, 0, 0, 0, 0, 68, 37, 217, 128, 0, 0, 0, 0, 69, 67, 239, 0, 0, 0, 0, 0, 70,
    5, 187, 128, 0, 0, 0, 0, 71, 35, 209, 0, 0, 0, 0, 0, 71, 238, 216, 0, 0, 0, 0, 0, 73, 3, 179,
    0, 0, 0, 0, 0, 73, 206, 186, 0, 0, 0, 0, 0, 74, 227, 149, 0, 0, 0, 0, 0, 75, 174, 156, 0, 0,
    0, 0, 0, 76, 204, 177, 128, 0, 0, 0, 0, 77, 142, 126, 0, 0, 0, 0, 0, 78, 172, 147, 128, 0, 0,
    0, 0, 79, 110, 96, 0, 0, 0, 0, 0, 80, 140, 117, 128, 0, 0, 0, 0, 81, 87, 124, 128, 0, 0, 0, 0,
    82, 108, 87, 128, 0, 0, 0, 0, 83, 55, 94, 128, 0, 0, 0, 0, 84, 76, 57, 128, 0, 0, 0, 0, 85,
    23, 64, 128, 0, 0, 0, 0, 86, 44, 27, 128, 0, 0, 0, 0, 86, 247, 34, 128, 0, 0, 0, 0, 88, 21,
    56, 0, 0, 0, 0, 0, 88, 215, 4, 128, 0, 0, 0, 0, 89, 245, 26, 0, 0, 0, 0, 0, 90, 182, 230, 128,
    0, 0, 0, 0, 91, 212, 252, 0, 0, 0, 0, 0, 92, 160, 3, 0, 0, 0, 0, 0, 93, 180, 222, 0, 0, 0, 0,
    0, 94, 127, 229, 0, 0, 0, 0, 0, 95, 148, 192, 0, 0, 0, 0, 0, 96, 95, 199, 0, 0, 0, 0, 0, 97,
    125, 220, 128, 0, 0, 0, 0, 97, 207, 125, 96, 1, 2, 4, 3, 4, 3, 4, 3, 4, 3, 4, 3, 4, 3, 4, 3,
    4, 3, 4, 3, 6, 5, 6, 5, 6, 8, 7, 8, 7, 8, 7, 8, 7, 8, 7, 8, 7, 8, 7, 8, 7, 8, 7, 8, 7, 3, 4,
    3, 4, 3, 4, 3, 4, 3, 4, 3, 4, 3, 4, 3, 4, 3, 4, 3, 4, 3, 4, 3, 4, 3, 4, 3, 4, 3, 4, 3, 4, 3,
    4, 3, 4, 3, 4, 3, 4, 3, 4, 3, 4, 3, 4, 3, 4, 3, 4, 3, 4, 3, 4, 3, 4, 3, 4, 3, 4, 3, 4, 3, 4,
    4, 0, 0, 27, 8, 0, 0, 0, 0, 26, 244, 0, 4, 0, 0, 24, 120, 0, 8, 0, 0, 42, 48, 1, 12, 0, 0, 28,
    32, 0, 17, 0, 0, 14, 16, 0, 21, 0, 0, 28, 32, 1, 25, 0, 0, 56, 64, 1, 30, 0, 0, 42, 48, 0, 34,
    76, 77, 84, 0, 67, 77, 84, 0, 66, 77, 84, 0, 69, 69, 83, 84, 0, 69, 69, 84, 0, 67, 69, 84, 0,
    67, 69, 83, 84, 0, 77, 83, 68, 0, 77, 83, 75, 0, 10, 69, 69, 84, 45, 50, 69, 69, 83, 84, 44,
    77, 51, 46, 53, 46, 48, 47, 51, 44, 77, 49, 48, 46, 53, 46, 48, 47, 52, 10,
];

/// `Europe/Dublin`.
#[verifier::opaque]
pub const EUROPE_DUBLIN: [u8; 1496] = [
    84, 90, 105, 102, 50, 0, 0, 0, 0, 0, 0, 0, 0, 0, 0, 0, 0, 0, 0, 0, 0, 0, 0, 0, 0, 0, 0, 0, 0,
    0, 0, 0, 0, 0, 0, 0, 0, 0, 0, 1, 0, 0, 0, 1, 0, 0, 0, 0, 0, 0, 0, 84, 90, 105, 102, 50, 0, 0,
    0, 0, 0, 0, 0, 0, 0, 0, 0, 0, 0, 0, 0, 0, 0, 0, 0, 0, 0, 0, 0, 0, 0, 0, 0, 0, 0, 0, 145, 0, 0,
    0, 8, 0, 0, 0, 20, 255, 255, 255, 255, 87, 209, 10, 241, 255, 255, 255, 255, 155, 38, 179,
    145, 255, 255, 255, 255, 155, 214, 11, 17, 255, 255, 255, 255, 156, 207, 48, 160, 255, 255,
    255, 255, 157, 164, 195, 160, 255, 255, 255, 255, 158, 156, 157, 160, 255, 255, 255, 255, 159,
    151, 26, 160, 255, 255, 255, 255, 160, 133, 186, 32, 255, 255, 255, 255, 161, 118, 252, 160,
    255, 255, 255, 255, 162, 101, 156, 32, 255, 255, 255, 255, 163, 123, 200, 160, 255, 255, 255,
    255, 164, 78, 184, 160, 255, 255, 255, 255, 165, 63, 251, 32, 255, 255, 255, 255, 166, 37, 96,
    32, 255, 255, 255, 255, 167, 39, 198, 32, 255, 255, 255, 255, 168, 42, 44, 32, 255, 255, 255,
    255, 168, 235, 248, 160, 255, 255, 255, 255, 170, 0, 211, 160, 255, 255, 255, 255, 170, 213,
    21, 32, 255, 255, 255, 255, 171, 233, 240, 32, 255, 255, 255, 255, 172, 199, 108, 32, 255,
    255, 255, 255, 173, 201, 210, 32, 255, 255, 255, 255, 174, 167, 78, 32, 255, 255, 255, 255,
    175, 160, 121, 160, 255, 255, 255, 255, 176, 135, 48, 32, 255, 255, 255, 255, 177, 146, 208,
    160, 255, 255, 255, 255, 178, 112, 76, 160, 255, 255, 255, 255, 179, 114, 178, 160, 255, 255,
    255, 255, 180, 80, 46, 160, 255, 255, 255, 255, 181, 73, 90, 32, 255, 255, 255, 255, 182, 48,
    16, 160, 255, 255, 255, 255, 183, 50, 118, 160, 255, 255, 255, 255, 184, 15, 242, 160, 255,
    255, 255, 255, 185, 18, 88, 160, 255, 255, 255, 255, 185, 239, 212, 160, 255, 255, 255, 255,
    186, 233, 0, 32, 255, 255, 255, 255, 187, 216, 241, 32, 255, 255, 255, 255, 188, 219, 87, 32,
    255, 255, 255, 255, 189, 184, 211, 32, 255, 255, 255, 255, 190, 177, 254, 160, 255, 255, 255,
    255, 191, 152, 181, 32, 255, 255, 255, 255, 192, 155, 27, 32, 255, 255, 255, 255, 193, 120,
    151, 32, 255, 255, 255, 255, 194, 122, 253, 32, 255, 255, 255, 255, 195, 88, 121, 32, 255,
    255, 255, 255, 196, 81, 164, 160, 255, 255, 255, 255, 197, 56, 91, 32, 255, 255, 255, 255,
    198, 58, 193, 32, 255, 255, 255, 255, 199, 88, 214, 160, 255, 255, 255, 255, 199, 218, 9, 160,
    255, 255, 255, 255, 212, 73, 224, 32, 255, 255, 255, 255, 213, 30, 33, 160, 255, 255, 255,
    255, 214, 78, 172, 32, 255, 255, 255, 255, 215, 44, 40, 32, 255, 255, 255, 255, 216, 46, 142,
    32, 255, 255, 255, 255, 216, 249, 149, 32, 255, 255, 255, 255, 218, 14, 112, 32, 255, 255,
    255, 255, 218, 235, 236, 32, 255, 255, 255, 255, 219, 229, 23, 160, 255, 255, 255, 255, 220,
    203, 206, 32, 255, 255, 255, 255, 221, 196, 249, 160, 255, 255, 255, 255, 222, 180, 234, 160,
    255, 255, 255, 255, 223, 174, 22, 32, 255, 255, 255, 255, 224, 148, 204, 160, 255, 255, 255,
    255, 225, 114, 72, 160, 255, 255, 255, 255, 226, 107, 116, 32, 255, 255, 255, 255, 227, 82,
    42, 160, 255, 255, 255, 255, 228, 84, 144, 160, 255, 255, 255, 255, 229, 50, 12, 160, 255,
    255, 255, 255, 230, 61, 173, 32, 255, 255, 255, 255, 231, 27, 41, 32, 255, 255, 255, 255, 232,
    20, 84, 160, 255, 255, 255, 255, 232, 251, 11, 32, 255, 255, 255, 255, 233, 253, 113, 32, 255,
    255, 255, 255, 234, 218, 237, 32, 255, 255, 255, 255, 235, 221, 83, 32, 255, 255, 255, 255,
    236, 186, 207, 32, 255, 255, 255, 255, 237, 179, 250, 160, 255, 255, 255, 255, 238, 154, 177,
    32, 255, 255, 255, 255, 239, 129, 103, 160, 255, 255, 255, 255, 240, 159, 125, 32, 255, 255,
    255, 255, 241, 97, 73, 160, 255, 255, 255, 255, 242, 127, 95, 32, 255, 255, 255, 255, 243, 74,
    102, 32, 255, 255, 255, 255, 244, 95, 65, 32, 255, 255, 255, 255, 245, 33, 13, 160, 255, 255,
    255, 255, 246, 63, 35, 32, 255, 255, 255, 255, 247, 0, 239, 160, 255, 255, 255, 255, 248, 31,
    5, 32, 255, 255, 255, 255, 248, 224, 209, 160, 255, 255, 255, 255, 249, 254, 231, 32, 255,
    255, 255, 255, 250, 192, 179, 160, 255, 255, 255, 255, 251, 232, 3, 160, 255, 255, 255, 255,
    252, 123, 171, 160, 255, 255, 255, 255, 253, 199, 187, 112, 0, 0, 0, 0, 3, 112, 198, 32, 0, 0,
    0, 0, 4, 41, 88, 32, 0, 0, 0, 0, 5, 80, 168, 32, 0, 0, 0, 0, 6, 9, 58, 32, 0, 0, 0, 0, 7, 48,
    138, 32, 0, 0, 0, 0, 7, 233, 28, 32, 0, 0, 0, 0, 9, 16, 108, 32, 0, 0, 0, 0, 9, 200, 254, 32,
    0, 0, 0, 0, 10, 240, 78, 32, 0, 0, 0, 0, 11, 178, 26, 160, 0, 0, 0, 0, 12, 208, 48, 32, 0, 0,
    0, 0, 13, 145, 252, 160, 0, 0, 0, 0, 14, 176, 18, 32, 0, 0, 0, 0, 15, 113, 222, 160, 0, 0, 0,
    0, 16, 153, 46, 160, 0, 0, 0, 0, 17, 81, 192, 160, 0, 0, 0, 0, 18, 121, 16, 160, 0, 0, 0, 0,
    19, 49, 162, 160, 0, 0, 0, 0, 20, 88, 242, 160, 0, 0, 0, 0, 21, 35, 235, 144, 0, 0, 0, 0, 22,
    56, 198, 144, 0, 0, 0, 0, 23, 3, 205, 144, 0, 0, 0, 0, 24, 24, 168, 144, 0, 0, 0, 0, 24, 227,
    175, 144, 0, 0, 0, 0, 25, 248, 138, 144, 0, 0, 0, 0, 26, 195, 145, 144, 0, 0, 0, 0, 27, 225,
    167, 16, 0, 0, 0, 0, 28, 172, 174, 16, 0, 0, 0, 0, 29, 193, 137, 16, 0, 0, 0, 0, 30, 140, 144,
    16, 0, 0, 0, 0, 31, 161, 107, 16, 0, 0, 0, 0, 32, 108, 114, 16, 0, 0, 0, 0, 33, 129, 77, 16,
    0, 0, 0, 0, 34, 76, 84, 16, 0, 0, 0, 0, 35, 97, 47, 16, 0, 0, 0, 0, 36, 44, 54, 16, 0, 0, 0,
    0, 37, 74, 75, 144, 0, 0, 0, 0, 38, 12, 24, 16, 0, 0, 0, 0, 39, 42, 45, 144, 0, 0, 0, 0, 39,
    245, 52, 144, 0, 0, 0, 0, 41, 10, 15, 144, 0, 0, 0, 0, 41, 213, 22, 144, 0, 0, 0, 0, 42, 233,
    241, 144, 0, 0, 0, 0, 43, 180, 248, 144, 0, 0, 0, 0, 44, 201, 211, 144, 0, 0, 0, 0, 45, 148,
    218, 144, 0, 0, 0, 0, 46, 169, 181, 144, 0, 0, 0, 0, 47, 116, 188, 144, 0, 0, 0, 0, 48, 137,
    151, 144, 0, 0, 0, 0, 49, 93, 217, 16, 1, 2, 4, 3, 4, 3, 4, 3, 4, 3, 4, 3, 4, 5, 4, 5, 4, 5,
    4, 5, 4, 5, 4, 5, 4, 5, 4, 5, 4, 5, 4, 5, 4, 5, 4, 5, 4, 5, 4, 5, 4, 5, 4, 5, 4, 5, 4, 5, 4,
    5, 4, 5, 4, 5, 4, 5, 4, 5, 4, 5, 4, 5, 4, 5, 4, 5, 4, 5, 4, 5, 4, 5, 4, 5, 4, 5, 4, 5, 4, 5,
    4, 5, 4, 5, 4, 5, 4, 5, 4, 5, 4, 5, 4, 5, 7, 6, 7, 6, 7, 6, 7, 6, 7, 6, 7, 6, 7, 6, 7, 6, 7,
    6, 7, 6, 7, 6, 7, 6, 7, 6, 7, 6, 7, 6, 7, 6, 7, 6, 7, 6, 7, 6, 7, 6, 7, 6, 7, 6, 7, 6, 7, 6,
    7, 6, 7, 255, 255, 250, 15, 0, 0, 255, 255, 250, 15, 0, 4, 0, 0, 8, 31, 1, 8, 0, 0, 14, 16, 1,
    12, 0, 0, 0, 0, 0, 16, 0, 0, 14, 16, 1, 8, 0, 0, 0, 0, 1, 16, 0, 0, 14, 16, 0, 8, 76, 77, 84,
    0, 68, 77, 84, 0, 73, 83, 84, 0, 66, 83, 84, 0, 71, 77, 84, 0, 10, 73, 83, 84, 45, 49, 71, 77,
    84, 48, 44, 77, 49, 48, 46, 53, 46, 48, 44, 77, 51, 46, 53, 46, 48, 47, 49, 10,
];

/// `Europe/Gibraltar`.
#[verifier::opaque]
pub const EUROPE_GIBRALTAR: [u8; 1220] = [
    84, 90, 105, 102, 50, 0, 0, 0, 0, 0, 0, 0, 0, 0, 0, 0, 0, 0, 0, 0, 0, 0, 0, 0, 0, 0, 0, 0, 0,
    0, 0, 0, 0, 0, 0, 0, 0, 0, 0, 1, 0, 0, 0, 1, 0, 0, 0, 0, 0, 0, 0, 84, 90, 105, 102, 50, 0, 0,
    0, 0, 0, 0, 0, 0, 0, 0, 0, 0, 0, 0, 0, 0, 0, 0, 0, 0, 0, 0, 0, 0, 0, 0, 0, 0, 0, 0, 115, 0, 0,
    0, 6, 0, 0, 0, 26, 255, 255, 255, 255, 87, 209, 10, 4, 255, 255, 255, 255, 155, 38, 173, 160,
    255, 255, 255, 255, 155, 214, 5, 32, 255, 255, 255, 255, 156, 207, 48, 160, 255, 255, 255,
    255, 157, 164, 195, 160, 255, 255, 255, 255, 158, 156, 157, 160, 255, 255, 255, 255, 159, 151,
    26, 160, 255, 255, 255, 255, 160, 133, 186, 32, 255, 255, 255, 255, 161, 118, 252, 160, 255,
    255, 255, 255, 162, 101, 156, 32, 255, 255, 255, 255, 163, 123, 200, 160, 255, 255, 255, 255,
    164, 78, 184, 160, 255, 255, 255, 255, 165, 63, 251, 32, 255, 255, 255, 255, 166, 37, 96, 32,
    255, 255, 255, 255, 167, 39, 198, 32, 255, 255, 255, 255, 168, 42, 44, 32, 255, 255, 255, 255,
    168, 235, 248, 160, 255, 255, 255, 255, 170, 0, 211, 160, 255, 255, 255, 255, 170, 213, 21,
    32, 255, 255, 255, 255, 171, 233, 240, 32, 255, 255, 255, 255, 172, 199, 108, 32, 255, 255,
    255, 255, 173, 201, 210, 32, 255, 255, 255, 255, 174, 167, 78, 32, 255, 255, 255, 255, 175,
    160, 121, 160, 255, 255, 255, 255, 176, 135, 48, 32, 255, 255, 255, 255, 177, 146, 208, 160,
    255, 255, 255, 255, 178, 112, 76, 160, 255, 255, 255, 255, 179, 114, 178, 160, 255, 255, 255,
    255, 180, 80, 46, 160, 255, 255, 255, 255, 181, 73, 90, 32, 255, 255, 255, 255, 182, 48, 16,
    160, 255, 255, 255, 255, 183, 50, 118, 160, 255, 255, 255, 255, 184, 15, 242, 160, 255, 255,
    255, 255, 185, 18, 88, 160, 255, 255, 255, 255, 185, 239, 212, 160, 255, 255, 255, 255, 186,
    233, 0, 32, 255, 255, 255, 255, 187, 216, 241, 32, 255, 255, 255, 255, 188, 219, 87, 32, 255,
    255, 255, 255, 189, 184, 211, 32, 255, 255, 255, 255, 190, 177, 254, 160, 255, 255, 255, 255,
    191, 152, 181, 32, 255, 255, 255, 255, 192, 155, 27, 32, 255, 255, 255, 255, 193, 120, 151,
    32, 255, 255, 255, 255, 194, 122, 253, 32, 255, 255, 255, 255, 195, 88, 121, 32, 255, 255,
    255, 255, 196, 81, 164, 160, 255, 255, 255, 255, 197, 56, 91, 32, 255, 255, 255, 255, 198, 58,
    193, 32, 255, 255, 255, 255, 199, 88, 214, 160, 255, 255, 255, 255, 199, 218, 9, 160, 255,
    255, 255, 255, 202, 22, 38, 144, 255, 255, 255, 255, 202, 151, 89, 144, 255, 255, 255, 255,
    203, 209, 30, 144, 255, 255, 255, 255, 204, 119, 59, 144, 255, 255, 255, 255, 205, 177, 0,
    144, 255, 255, 255, 255, 206, 96, 88, 16, 255, 255, 255, 255, 207, 144, 226, 144, 255, 255,
    255, 255, 208, 110, 94, 144, 255, 255, 255, 255, 209, 114, 22, 16, 255, 255, 255, 255, 209,
    251, 50, 16, 255, 255, 255, 255, 210, 105, 254, 32, 255, 255, 255, 255, 211, 99, 41, 160, 255,
    255, 255, 255, 212, 73, 224, 32, 255, 255, 255, 255, 213, 30, 33, 160, 255, 255, 255, 255,
    213, 66, 253, 144, 255, 255, 255, 255, 213, 223, 224, 16, 255, 255, 255, 255, 214, 78, 172,
    32, 255, 255, 255, 255, 214, 254, 3, 160, 255, 255, 255, 255, 216, 46, 142, 32, 255, 255, 255,
    255, 216, 249, 149, 32, 255, 255, 255, 255, 218, 14, 112, 32, 255, 255, 255, 255, 218, 235,
    236, 32, 255, 255, 255, 255, 219, 229, 23, 160, 255, 255, 255, 255, 220, 203, 206, 32, 255,
    255, 255, 255, 221, 196, 249, 160, 255, 255, 255, 255, 222, 180, 234, 160, 255, 255, 255, 255,
    223, 174, 22, 32, 255, 255, 255, 255, 224, 148, 204, 160, 255, 255, 255, 255, 225, 114, 72,
    160, 255, 255, 255, 255, 226, 107, 116, 32, 255, 255, 255, 255, 227, 82, 42, 160, 255, 255,
    255, 255, 228, 84, 144, 160, 255, 255, 255, 255, 229, 50, 12, 160, 255, 255, 255, 255, 230,
    61, 173, 32, 255, 255, 255, 255, 231, 27, 41, 32, 255, 255, 255, 255, 232, 20, 84, 160, 0, 0,
    0, 0, 23, 3, 205, 144, 0, 0, 0, 0, 23, 243, 190, 144, 0, 0, 0, 0, 24, 227, 175, 144, 0, 0, 0,
    0, 25, 211, 160, 144, 0, 0, 0, 0, 26, 195, 145, 144, 0, 0, 0, 0, 27, 188, 189, 16, 0, 0, 0, 0,
    28, 172, 174, 16, 0, 0, 0, 0, 29, 156, 159, 16, 0, 0, 0, 0, 30, 140, 144, 16, 0, 0, 0, 0, 31,
    124, 129, 16, 0, 0, 0, 0, 32, 108, 114, 16, 0, 0, 0, 0, 33, 92, 99, 16, 0, 0, 0, 0, 34, 76,
    84, 16, 0, 0, 0, 0, 35, 60, 69, 16, 0, 0, 0, 0, 36, 44, 54, 16, 0, 0, 0, 0, 37, 28, 39, 16, 0,
    0, 0, 0, 38, 12, 24, 16, 0, 0, 0, 0, 39, 5, 67, 144, 0, 0, 0, 0, 39, 245, 52, 144, 0, 0, 0, 0,
    40, 229, 37, 144, 0, 0, 0, 0, 41, 213, 22, 144, 0, 0, 0, 0, 42, 197, 7, 144, 0, 0, 0, 0, 43,
    180, 248, 144, 0, 0, 0, 0, 44, 164, 233, 144, 0, 0, 0, 0, 45, 148, 218, 144, 0, 0, 0, 0, 46,
    132, 203, 144, 0, 0, 0, 0, 47, 116, 188, 144, 0, 0, 0, 0, 48, 100, 173, 144, 0, 0, 0, 0, 49,
    93, 217, 16, 2, 1, 2, 1, 2, 1, 2, 1, 2, 1, 2, 1, 2, 1, 2, 1, 2, 1, 2, 1, 2, 1, 2, 1, 2, 1, 2,
    1, 2, 1, 2, 1, 2, 1, 2, 1, 2, 1, 2, 1, 2, 1, 2, 1, 2, 1, 2, 1, 2, 1, 3, 1, 3, 1, 3, 1, 3, 1,
    3, 1, 2, 1, 2, 1, 3, 1, 2, 1, 2, 1, 2, 1, 2, 1, 2, 1, 2, 1, 2, 1, 2, 1, 2, 1, 2, 4, 5, 4, 5,
    4, 5, 4, 5, 4, 5, 4, 5, 4, 5, 4, 5, 4, 5, 4, 5, 4, 5, 4, 5, 4, 5, 4, 5, 4, 5, 255, 255, 250,
    252, 0, 0, 0, 0, 14, 16, 1, 4, 0, 0, 0, 0, 0, 8, 0, 0, 28, 32, 1, 12, 0, 0, 14, 16, 0, 17, 0,
    0, 28, 32, 1, 21, 76, 77, 84, 0, 66, 83, 84, 0, 71, 77, 84, 0, 66, 68, 83, 84, 0, 67, 69, 84,
    0, 67, 69, 83, 84, 0, 10, 67, 69, 84, 45, 49, 67, 69, 83, 84, 44, 77, 51, 46, 53, 46, 48, 44,
    77, 49, 48, 46, 53, 46, 48, 47, 51, 10,
];

/// `Europe/Helsinki`.
#[verifier::opaque]
pub const EUROPE_HELSINKI: [u8; 481] = [
    84, 90, 105, 102, 50, 0, 0, 0, 0, 0, 0, 0, 0, 0, 0, 0, 0, 0, 0, 0, 0, 0, 0, 0, 0, 0, 0, 0, 0,
    0, 0, 0, 0, 0, 0, 0, 0, 0, 0, 1, 0, 0, 0, 1, 0, 0, 0, 0, 0, 0, 0, 84, 90, 105, 102, 50, 0, 0,
    0, 0, 0, 0, 0, 0, 0, 0, 0, 0, 0, 0, 0, 0, 0, 0, 0, 0, 0, 0, 0, 0, 0, 0, 0, 0, 0, 0, 35, 0, 0,
    0, 4, 0, 0, 0, 17, 255, 255, 255, 255, 83, 186, 38, 155, 255, 255, 255, 255, 164, 115, 111,
    27, 255, 255, 255, 255, 203, 206, 81, 96, 255, 255, 255, 255, 204, 192, 229, 96, 0, 0, 0, 0,
    21, 35, 221, 128, 0, 0, 0, 0, 22, 19, 206, 128, 0, 0, 0, 0, 23, 3, 191, 128, 0, 0, 0, 0, 23,
    243, 176, 128, 0, 0, 0, 0, 24, 227, 175, 144, 0, 0, 0, 0, 25, 211, 160, 144, 0, 0, 0, 0, 26,
    195, 145, 144, 0, 0, 0, 0, 27, 188, 189, 16, 0, 0, 0, 0, 28, 172, 174, 16, 0, 0, 0, 0, 29,
    156, 159, 16, 0, 0, 0, 0, 30, 140, 144, 16, 0, 0, 0, 0, 31, 124, 129, 16, 0, 0, 0, 0, 32, 108,
    114, 16, 0, 0, 0, 0, 33, 92, 99, 16, 0, 0, 0, 0, 34, 76, 84, 16, 0, 0, 0, 0, 35, 60, 69, 16,
    0, 0, 0, 0, 36, 44, 54, 16, 0, 0, 0, 0, 37, 28, 39, 16, 0, 0, 0, 0, 38, 12, 24, 16, 0, 0, 0,
    0, 39, 5, 67, 144, 0, 0, 0, 0, 39, 245, 52, 144, 0, 0, 0, 0, 40, 229, 37, 144, 0, 0, 0, 0, 41,
    213, 22, 144, 0, 0, 0, 0, 42, 197, 7, 144, 0, 0, 0, 0, 43, 180, 248, 144, 0, 0, 0, 0, 44, 164,
    233, 144, 0, 0, 0, 0, 45, 148, 218, 144, 0, 0, 0, 0, 46, 132, 203, 144, 0, 0, 0, 0, 47, 116,
    188, 144, 0, 0, 0, 0, 48, 100, 173, 144, 0, 0, 0, 0, 49, 93, 217, 16, 1, 3, 2, 3, 2, 3, 2, 3,
    2, 3, 2, 3, 2, 3, 2, 3, 2, 3, 2, 3, 2, 3, 2, 3, 2, 3, 2, 3, 2, 3, 2, 3, 2, 3, 2, 0, 0, 23,
    101, 0, 0, 0, 0, 23, 101, 0, 4, 0, 0, 42, 48, 1, 8, 0, 0, 28, 32, 0, 13, 76, 77, 84, 0, 72,
    77, 84, 0, 69, 69, 83, 84, 0, 69, 69, 84, 0, 10, 69, 69, 84, 45, 50, 69, 69, 83, 84, 44, 77,
    51, 46, 53, 46, 48, 47, 51, 44, 77, 49, 48, 46, 53, 46, 48, 47, 52, 10,
];

/// `Europe/Istanbul`.
#[verifier::opaque]
pub const EUROPE_ISTANBUL: [u8; 1200] = [
    84, 90, 105, 102, 50, 0, 0, 0, 0, 0, 0, 0, 0, 0, 0, 0, 0, 0, 0, 0, 0, 0, 0, 0, 0, 0, 0, 0, 0,
    0, 0, 0, 0, 0, 0, 0, 0, 0, 0, 1, 0, 0, 0, 1, 0, 0, 0, 0, 0, 0, 0, 84, 90, 105, 102, 50, 0, 0,
    0, 0, 0, 0, 0, 0, 0, 0, 0, 0, 0, 0, 0, 0, 0, 0, 0, 0, 0, 0, 0, 0, 0, 0, 0, 0, 0, 0, 115, 0, 0,
    0, 6, 0, 0, 0, 25, 255, 255, 255, 255, 86, 182, 200, 216, 255, 255, 255, 255, 144, 139, 245,
    152, 255, 255, 255, 255, 155, 12, 23, 96, 255, 255, 255, 255, 155, 213, 190, 208, 255, 255,
    255, 255, 162, 101, 99, 224, 255, 255, 255, 255, 163, 123, 130, 80, 255, 255, 255, 255, 164,
    78, 128, 96, 255, 255, 255, 255, 165, 63, 180, 208, 255, 255, 255, 255, 166, 37, 39, 224, 255,
    255, 255, 255, 167, 39, 127, 208, 255, 255, 255, 255, 170, 40, 40, 96, 255, 255, 255, 255,
    170, 225, 253, 208, 255, 255, 255, 255, 171, 249, 137, 224, 255, 255, 255, 255, 172, 195, 49,
    80, 255, 255, 255, 255, 200, 129, 63, 224, 255, 255, 255, 255, 201, 1, 19, 80, 255, 255, 255,
    255, 201, 74, 245, 96, 255, 255, 255, 255, 202, 206, 128, 80, 255, 255, 255, 255, 203, 203,
    174, 96, 255, 255, 255, 255, 210, 107, 9, 80, 255, 255, 255, 255, 211, 162, 57, 96, 255, 255,
    255, 255, 212, 67, 2, 80, 255, 255, 255, 255, 213, 76, 13, 224, 255, 255, 255, 255, 214, 41,
    123, 208, 255, 255, 255, 255, 215, 43, 239, 224, 255, 255, 255, 255, 216, 9, 93, 208, 255,
    255, 255, 255, 217, 2, 151, 96, 255, 255, 255, 255, 217, 233, 63, 208, 255, 255, 255, 255,
    218, 235, 179, 224, 255, 255, 255, 255, 219, 210, 92, 80, 255, 255, 255, 255, 220, 212, 208,
    96, 255, 255, 255, 255, 221, 178, 62, 80, 255, 255, 255, 255, 241, 244, 185, 96, 255, 255,
    255, 255, 244, 98, 239, 80, 255, 255, 255, 255, 245, 104, 6, 96, 255, 255, 255, 255, 246, 31,
    56, 208, 0, 0, 0, 0, 6, 110, 147, 112, 0, 0, 0, 0, 7, 57, 154, 112, 0, 0, 0, 0, 7, 251, 117,
    0, 0, 0, 0, 0, 9, 25, 124, 112, 0, 0, 0, 0, 9, 208, 203, 0, 0, 0, 0, 0, 10, 249, 94, 112, 0,
    0, 0, 0, 11, 177, 254, 128, 0, 0, 0, 0, 12, 217, 64, 112, 0, 0, 0, 0, 13, 164, 85, 128, 0, 0,
    0, 0, 14, 166, 173, 112, 0, 0, 0, 0, 15, 132, 55, 128, 0, 0, 0, 0, 15, 248, 17, 80, 0, 0, 0,
    0, 25, 137, 176, 112, 0, 0, 0, 0, 25, 220, 176, 224, 0, 0, 0, 0, 27, 230, 208, 240, 0, 0, 0,
    0, 28, 198, 239, 240, 0, 0, 0, 0, 29, 155, 49, 112, 0, 0, 0, 0, 30, 140, 115, 240, 0, 0, 0, 0,
    31, 124, 100, 240, 0, 0, 0, 0, 32, 108, 85, 240, 0, 0, 0, 0, 33, 92, 70, 240, 0, 0, 0, 0, 34,
    76, 55, 240, 0, 0, 0, 0, 35, 60, 40, 240, 0, 0, 0, 0, 36, 44, 25, 240, 0, 0, 0, 0, 37, 28, 10,
    240, 0, 0, 0, 0, 38, 11, 251, 240, 0, 0, 0, 0, 39, 5, 39, 112, 0, 0, 0, 0, 39, 245, 24, 112,
    0, 0, 0, 0, 40, 229, 9, 112, 0, 0, 0, 0, 41, 212, 250, 112, 0, 0, 0, 0, 42, 196, 235, 112, 0,
    0, 0, 0, 43, 180, 220, 112, 0, 0, 0, 0, 44, 164, 205, 112, 0, 0, 0, 0, 45, 139, 131, 240, 0,
    0, 0, 0, 46, 132, 175, 112, 0, 0, 0, 0, 47, 116, 160, 112, 0, 0, 0, 0, 48, 100, 145, 112, 0,
    0, 0, 0, 49, 93, 188, 240, 0, 0, 0, 0, 50, 114, 151, 240, 0, 0, 0, 0, 51, 61, 158, 240, 0, 0,
    0, 0, 52, 82, 121, 240, 0, 0, 0, 0, 53, 29, 128, 240, 0, 0, 0, 0, 54, 50, 91, 240, 0, 0, 0, 0,
    54, 253, 98, 240, 0, 0, 0, 0, 56, 27, 120, 112, 0, 0, 0, 0, 56, 221, 68, 240, 0, 0, 0, 0, 57,
    251, 90, 112, 0, 0, 0, 0, 58, 189, 38, 240, 0, 0, 0, 0, 59, 219, 60, 112, 0, 0, 0, 0, 60, 166,
    67, 112, 0, 0, 0, 0, 61, 187, 30, 112, 0, 0, 0, 0, 62, 134, 37, 112, 0, 0, 0, 0, 63, 155, 0,
    112, 0, 0, 0, 0, 64, 102, 7, 112, 0, 0, 0, 0, 65, 132, 28, 240, 0, 0, 0, 0, 66, 69, 233, 112,
    0, 0, 0, 0, 67, 99, 254, 240, 0, 0, 0, 0, 68, 37, 203, 112, 0, 0, 0, 0, 69, 67, 224, 240, 0,
    0, 0, 0, 70, 5, 201, 144, 0, 0, 0, 0, 71, 35, 223, 16, 0, 0, 0, 0, 71, 238, 230, 16, 0, 0, 0,
    0, 73, 3, 193, 16, 0, 0, 0, 0, 73, 206, 200, 16, 0, 0, 0, 0, 74, 227, 163, 16, 0, 0, 0, 0, 75,
    174, 170, 16, 0, 0, 0, 0, 76, 204, 191, 144, 0, 0, 0, 0, 77, 143, 221, 144, 0, 0, 0, 0, 78,
    172, 161, 144, 0, 0, 0, 0, 79, 110, 110, 16, 0, 0, 0, 0, 80, 140, 131, 144, 0, 0, 0, 0, 81,
    87, 138, 144, 0, 0, 0, 0, 82, 108, 101, 144, 0, 0, 0, 0, 83, 56, 190, 16, 0, 0, 0, 0, 84, 76,
    71, 144, 0, 0, 0, 0, 85, 23, 78, 144, 0, 0, 0, 0, 86, 62, 158, 144, 0, 0, 0, 0, 86, 247, 48,
    144, 0, 0, 0, 0, 87, 207, 46, 80, 1, 3, 2, 3, 2, 3, 2, 3, 2, 3, 2, 3, 2, 3, 2, 3, 2, 3, 2, 3,
    2, 3, 2, 3, 2, 3, 2, 3, 2, 3, 2, 3, 2, 3, 2, 3, 2, 3, 2, 3, 2, 3, 2, 3, 2, 3, 2, 4, 5, 4, 3,
    2, 3, 2, 3, 2, 3, 2, 3, 2, 3, 2, 3, 2, 3, 2, 3, 2, 3, 2, 3, 2, 3, 2, 3, 2, 3, 2, 3, 2, 3, 2,
    3, 2, 3, 2, 3, 2, 3, 2, 3, 2, 3, 2, 3, 2, 3, 2, 3, 2, 3, 2, 3, 2, 3, 2, 3, 2, 3, 2, 3, 2, 3,
    2, 4, 0, 0, 27, 40, 0, 0, 0, 0, 27, 104, 0, 4, 0, 0, 42, 48, 1, 8, 0, 0, 28, 32, 0, 13, 0, 0,
    42, 48, 0, 17, 0, 0, 56, 64, 1, 21, 76, 77, 84, 0, 73, 77, 84, 0, 69, 69, 83, 84, 0, 69, 69,
    84, 0, 43, 48, 51, 0, 43, 48, 52, 0, 10, 60, 43, 48, 51, 62, 45, 51, 10,
];

/// `Europe/Kaliningrad`.
#[verifier::opaque]
pub const EUROPE_KALININGRAD: [u8; 904] = [
    84, 90, 105, 102, 50, 0, 0, 0, 0, 0, 0, 0, 0, 0, 0, 0, 0, 0, 0, 0, 0, 0, 0, 0, 0, 0, 0, 0, 0,
    0, 0, 0, 0, 0, 0, 0, 0, 0, 0, 1, 0, 0, 0, 1, 0, 0, 0, 0, 0, 0, 0, 84, 90, 105, 102, 50, 0, 0,
    0, 0, 0, 0, 0, 0, 0, 0, 0, 0, 0, 0, 0, 0, 0, 0, 0, 0, 0, 0, 0, 0, 0, 0, 0, 0, 0, 0, 80, 0, 0,
    0, 8, 0, 0, 0, 34, 255, 255, 255, 255, 111, 162, 91, 72, 255, 255, 255, 255, 155, 12, 23, 96,
    255, 255, 255, 255, 155, 213, 218, 240, 255, 255, 255, 255, 156, 217, 174, 144, 255, 255, 255,
    255, 157, 164, 181, 144, 255, 255, 255, 255, 158, 185, 144, 144, 255, 255, 255, 255, 159, 132,
    151, 144, 255, 255, 255, 255, 200, 9, 113, 144, 255, 255, 255, 255, 204, 231, 75, 16, 255,
    255, 255, 255, 205, 169, 23, 144, 255, 255, 255, 255, 206, 162, 67, 16, 255, 255, 255, 255,
    207, 146, 52, 16, 255, 255, 255, 255, 208, 130, 37, 16, 255, 255, 255, 255, 209, 114, 22, 16,
    255, 255, 255, 255, 209, 124, 119, 224, 255, 255, 255, 255, 209, 149, 132, 96, 255, 255, 255,
    255, 210, 138, 173, 80, 255, 255, 255, 255, 211, 89, 182, 224, 0, 0, 0, 0, 21, 39, 167, 208,
    0, 0, 0, 0, 22, 24, 220, 64, 0, 0, 0, 0, 23, 8, 219, 80, 0, 0, 0, 0, 23, 250, 15, 192, 0, 0,
    0, 0, 24, 234, 14, 208, 0, 0, 0, 0, 25, 219, 67, 64, 0, 0, 0, 0, 26, 204, 147, 208, 0, 0, 0,
    0, 27, 188, 160, 240, 0, 0, 0, 0, 28, 172, 145, 240, 0, 0, 0, 0, 29, 156, 130, 240, 0, 0, 0,
    0, 30, 140, 115, 240, 0, 0, 0, 0, 31, 124, 100, 240, 0, 0, 0, 0, 32, 108, 85, 240, 0, 0, 0, 0,
    33, 92, 70, 240, 0, 0, 0, 0, 34, 76, 55, 240, 0, 0, 0, 0, 35, 60, 40, 240, 0, 0, 0, 0, 36, 44,
    25, 240, 0, 0, 0, 0, 37, 28, 25, 0, 0, 0, 0, 0, 38, 12, 10, 0, 0, 0, 0, 0, 39, 5, 53, 128, 0,
    0, 0, 0, 39, 245, 38, 128, 0, 0, 0, 0, 40, 229, 23, 128, 0, 0, 0, 0, 41, 213, 8, 128, 0, 0, 0,
    0, 42, 196, 249, 128, 0, 0, 0, 0, 43, 180, 234, 128, 0, 0, 0, 0, 44, 164, 219, 128, 0, 0, 0,
    0, 45, 148, 204, 128, 0, 0, 0, 0, 46, 132, 189, 128, 0, 0, 0, 0, 47, 116, 174, 128, 0, 0, 0,
    0, 48, 100, 159, 128, 0, 0, 0, 0, 49, 93, 203, 0, 0, 0, 0, 0, 50, 114, 166, 0, 0, 0, 0, 0, 51,
    61, 173, 0, 0, 0, 0, 0, 52, 82, 136, 0, 0, 0, 0, 0, 53, 29, 143, 0, 0, 0, 0, 0, 54, 50, 106,
    0, 0, 0, 0, 0, 54, 253, 113, 0, 0, 0, 0, 0, 56, 27, 134, 128, 0, 0, 0, 0, 56, 221, 83, 0, 0,
    0, 0, 0, 57, 251, 104, 128, 0, 0, 0, 0, 58, 189, 53, 0, 0, 0, 0, 0, 59, 219, 74, 128, 0, 0, 0,
    0, 60, 166, 81, 128, 0, 0, 0, 0, 61, 187, 44, 128, 0, 0, 0, 0, 62, 134, 51, 128, 0, 0, 0, 0,
    63, 155, 14, 128, 0, 0, 0, 0, 64, 102, 21, 128, 0, 0, 0, 0, 65, 132, 43, 0, 0, 0, 0, 0, 66,
    69, 247, 128, 0, 0, 0, 0, 67, 100, 13, 0, 0, 0, 0, 0, 68, 37, 217, 128, 0, 0, 0, 0, 69, 67,
    239, 0, 0, 0, 0, 0, 70, 5, 187, 128, 0, 0, 0, 0, 71, 35, 209, 0, 0, 0, 0, 0, 71, 238, 216, 0,
    0, 0, 0, 0, 73, 3, 179, 0, 0, 0, 0, 0, 73, 206, 186, 0, 0, 0, 0, 0, 74, 227, 149, 0, 0, 0, 0,
    0, 75, 174, 156, 0, 0, 0, 0, 0, 76, 204, 177, 128, 0, 0, 0, 0, 77, 142, 126, 0, 0, 0, 0, 0,
    84, 76, 43, 112, 2, 1, 2, 1, 2, 1, 2, 1, 2, 1, 2, 1, 2, 1, 4, 3, 4, 6, 5, 6, 5, 6, 5, 6, 5, 6,
    5, 6, 5, 6, 5, 6, 5, 6, 3, 4, 3, 4, 3, 4, 3, 4, 3, 4, 3, 4, 3, 4, 3, 4, 3, 4, 3, 4, 3, 4, 3,
    4, 3, 4, 3, 4, 3, 4, 3, 4, 3, 4, 3, 4, 3, 4, 3, 4, 3, 4, 3, 4, 7, 4, 0, 0, 19, 56, 0, 0, 0, 0,
    28, 32, 1, 4, 0, 0, 14, 16, 0, 9, 0, 0, 42, 48, 1, 13, 0, 0, 28, 32, 0, 18, 0, 0, 56, 64, 1,
    22, 0, 0, 42, 48, 0, 26, 0, 0, 42, 48, 0, 30, 76, 77, 84, 0, 67, 69, 83, 84, 0, 67, 69, 84, 0,
    69, 69, 83, 84, 0, 69, 69, 84, 0, 77, 83, 68, 0, 77, 83, 75, 0, 43, 48, 51, 0, 10, 69, 69, 84,
    45, 50, 10,
];

/// `Europe/Kirov`.
#[verifier::opaque]
pub const EUROPE_KIROV: [u8; 735] = [
    84, 90, 105, 102, 50, 0, 0, 0, 0, 0, 0, 0, 0, 0, 0, 0, 0, 0, 0, 0, 0, 0, 0, 0, 0, 0, 0, 0, 0,
    0, 0, 0, 0, 0, 0, 0, 0, 0, 0, 1, 0, 0, 0, 1, 0, 0, 0, 0, 0, 0, 0, 84, 90, 105, 102, 50, 0, 0,
    0, 0, 0, 0, 0, 0, 0, 0, 0, 0, 0, 0, 0, 0, 0, 0, 0, 0, 0, 0, 0, 0, 0, 0, 0, 0, 0, 0, 63, 0, 0,
    0, 7, 0, 0, 0, 24, 255, 255, 255, 255, 161, 0, 57, 128, 255, 255, 255, 255, 181, 164, 11, 80,
    0, 0, 0, 0, 21, 39, 153, 192, 0, 0, 0, 0, 22, 24, 206, 48, 0, 0, 0, 0, 23, 8, 205, 64, 0, 0,
    0, 0, 23, 250, 1, 176, 0, 0, 0, 0, 24, 234, 0, 192, 0, 0, 0, 0, 25, 219, 53, 48, 0, 0, 0, 0,
    26, 204, 133, 192, 0, 0, 0, 0, 27, 188, 146, 224, 0, 0, 0, 0, 28, 172, 131, 224, 0, 0, 0, 0,
    29, 156, 116, 224, 0, 0, 0, 0, 30, 140, 101, 224, 0, 0, 0, 0, 31, 124, 86, 224, 0, 0, 0, 0,
    32, 108, 71, 224, 0, 0, 0, 0, 33, 92, 56, 224, 0, 0, 0, 0, 34, 76, 41, 224, 0, 0, 0, 0, 35,
    60, 26, 224, 0, 0, 0, 0, 36, 44, 11, 224, 0, 0, 0, 0, 37, 28, 10, 240, 0, 0, 0, 0, 38, 11,
    251, 240, 0, 0, 0, 0, 39, 5, 39, 112, 0, 0, 0, 0, 39, 245, 24, 112, 0, 0, 0, 0, 41, 212, 236,
    96, 0, 0, 0, 0, 42, 196, 235, 112, 0, 0, 0, 0, 43, 180, 220, 112, 0, 0, 0, 0, 44, 164, 205,
    112, 0, 0, 0, 0, 45, 148, 190, 112, 0, 0, 0, 0, 46, 132, 175, 112, 0, 0, 0, 0, 47, 116, 160,
    112, 0, 0, 0, 0, 48, 100, 145, 112, 0, 0, 0, 0, 49, 93, 188, 240, 0, 0, 0, 0, 50, 114, 151,
    240, 0, 0, 0, 0, 51, 61, 158, 240, 0, 0, 0, 0, 52, 82, 121, 240, 0, 0, 0, 0, 53, 29, 128, 240,
    0, 0, 0, 0, 54, 50, 91, 240, 0, 0, 0, 0, 54, 253, 98, 240, 0, 0, 0, 0, 56, 27, 120, 112, 0, 0,
    0, 0, 56, 221, 68, 240, 0, 0, 0, 0, 57, 251, 90, 112, 0, 0, 0, 0, 58, 189, 38, 240, 0, 0, 0,
    0, 59, 219, 60, 112, 0, 0, 0, 0, 60, 166, 67, 112, 0, 0, 0, 0, 61, 187, 30, 112, 0, 0, 0, 0,
    62, 134, 37, 112, 0, 0, 0, 0, 63, 155, 0, 112, 0, 0, 0, 0, 64, 102, 7, 112, 0, 0, 0, 0, 65,
    132, 28, 240, 0, 0, 0, 0, 66, 69, 233, 112, 0, 0, 0, 0, 67, 99, 254, 240, 0, 0, 0, 0, 68, 37,
    203, 112, 0, 0, 0, 0, 69, 67, 224, 240, 0, 0, 0, 0, 70, 5, 173, 112, 0, 0, 0, 0, 71, 35, 194,
    240, 0, 0, 0, 0, 71, 238, 201, 240, 0, 0, 0, 0, 73, 3, 164, 240, 0, 0, 0, 0, 73, 206, 171,
    240, 0, 0, 0, 0, 74, 227, 134, 240, 0, 0, 0, 0, 75, 174, 141, 240, 0, 0, 0, 0, 76, 204, 163,
    112, 0, 0, 0, 0, 77, 142, 111, 240, 0, 0, 0, 0, 84, 76, 29, 96, 1, 3, 2, 3, 2, 3, 2, 3, 2, 3,
    2, 3, 2, 3, 2, 3, 2, 3, 4, 5, 4, 5, 3, 4, 5, 4, 5, 4, 5, 4, 5, 4, 5, 4, 5, 4, 5, 4, 5, 4, 5,
    4, 5, 4, 5, 4, 5, 4, 5, 4, 5, 4, 5, 4, 5, 4, 5, 4, 5, 4, 5, 6, 5, 0, 0, 46, 152, 0, 0, 0, 0,
    42, 48, 0, 4, 0, 0, 70, 80, 1, 8, 0, 0, 56, 64, 0, 12, 0, 0, 56, 64, 1, 16, 0, 0, 42, 48, 0,
    20, 0, 0, 56, 64, 0, 20, 76, 77, 84, 0, 43, 48, 51, 0, 43, 48, 53, 0, 43, 48, 52, 0, 77, 83,
    68, 0, 77, 83, 75, 0, 10, 77, 83, 75, 45, 51, 10,
];

/// `Europe/Kyiv`.
#[verifier::opaque]
pub const EUROPE_KYIV: [u8; 558] = [
    84, 90, 105, 102, 50, 0, 0, 0, 0, 0, 0, 0, 0, 0, 0, 0, 0, 0, 0, 0, 0, 0, 0, 0, 0, 0, 0, 0, 0,
    0, 0, 0, 0, 0, 0, 0, 0, 0, 0, 1, 0, 0, 0, 1, 0, 0, 0, 0, 0, 0, 0, 84, 90, 105, 102, 50, 0, 0,
    0, 0, 0, 0, 0, 0, 0, 0, 0, 0, 0, 0, 0, 0, 0, 0, 0, 0, 0, 0, 0, 0, 0, 0, 0, 0, 0, 0, 39, 0, 0,
    0, 8, 0, 0, 0, 34, 255, 255, 255, 255, 86, 182, 199, 100, 255, 255, 255, 255, 170, 25, 167,
    100, 255, 255, 255, 255, 181, 164, 25, 96, 255, 255, 255, 255, 202, 205, 46, 208, 255, 255,
    255, 255, 204, 231, 75, 16, 255, 255, 255, 255, 205, 169, 23, 144, 255, 255, 255, 255, 206,
    162, 67, 16, 255, 255, 255, 255, 206, 205, 168, 112, 0, 0, 0, 0, 21, 39, 167, 208, 0, 0, 0, 0,
    22, 24, 220, 64, 0, 0, 0, 0, 23, 8, 219, 80, 0, 0, 0, 0, 23, 250, 15, 192, 0, 0, 0, 0, 24,
    234, 14, 208, 0, 0, 0, 0, 25, 219, 67, 64, 0, 0, 0, 0, 26, 204, 147, 208, 0, 0, 0, 0, 27, 188,
    160, 240, 0, 0, 0, 0, 28, 172, 145, 240, 0, 0, 0, 0, 29, 156, 130, 240, 0, 0, 0, 0, 30, 140,
    115, 240, 0, 0, 0, 0, 31, 124, 100, 240, 0, 0, 0, 0, 32, 108, 85, 240, 0, 0, 0, 0, 33, 92, 70,
    240, 0, 0, 0, 0, 34, 76, 55, 240, 0, 0, 0, 0, 35, 60, 40, 240, 0, 0, 0, 0, 36, 44, 25, 240, 0,
    0, 0, 0, 37, 28, 10, 240, 0, 0, 0, 0, 38, 11, 251, 240, 0, 0, 0, 0, 38, 141, 32, 224, 0, 0, 0,
    0, 40, 229, 23, 128, 0, 0, 0, 0, 41, 213, 8, 128, 0, 0, 0, 0, 42, 196, 249, 128, 0, 0, 0, 0,
    43, 180, 234, 128, 0, 0, 0, 0, 44, 164, 219, 128, 0, 0, 0, 0, 45, 148, 204, 128, 0, 0, 0, 0,
    46, 132, 189, 128, 0, 0, 0, 0, 47, 116, 174, 128, 0, 0, 0, 0, 48, 100, 159, 128, 0, 0, 0, 0,
    49, 93, 203, 0, 0, 0, 0, 0, 49, 150, 81, 80, 1, 2, 3, 5, 4, 5, 4, 3, 6, 3, 6, 3, 6, 3, 6, 3,
    6, 3, 6, 3, 6, 3, 6, 3, 6, 3, 6, 7, 2, 7, 2, 7, 2, 7, 2, 7, 2, 7, 7, 0, 0, 28, 156, 0, 0, 0,
    0, 28, 156, 0, 4, 0, 0, 28, 32, 0, 8, 0, 0, 42, 48, 0, 12, 0, 0, 14, 16, 0, 16, 0, 0, 28, 32,
    1, 20, 0, 0, 56, 64, 1, 25, 0, 0, 42, 48, 1, 29, 76, 77, 84, 0, 75, 77, 84, 0, 69, 69, 84, 0,
    77, 83, 75, 0, 67, 69, 84, 0, 67, 69, 83, 84, 0, 77, 83, 68, 0, 69, 69, 83, 84, 0, 10, 69, 69,
    84, 45, 50, 69, 69, 83, 84, 44, 77, 51, 46, 53, 46, 48, 47, 51, 44, 77, 49, 48, 46, 53, 46,
    48, 47, 52, 10,
];

/// `Europe/Lisbon`.
#[verifier::opaque]
pub const EUROPE_LISBON: [u8; 1463] = [
    84, 90, 105, 102, 50, 0, 0, 0, 0, 0, 0, 0, 0, 0, 0, 0, 0, 0, 0, 0, 0, 0, 0, 0, 0, 0, 0, 0, 0,
    0, 0, 0, 0, 0, 0, 0, 0, 0, 0, 1, 0, 0, 0, 1, 0, 0, 0, 0, 0, 0, 0, 84, 90, 105, 102, 50, 0, 0,
    0, 0, 0, 0, 0, 0, 0, 0, 0, 0, 0, 0, 0, 0, 0, 0, 0, 0, 0, 0, 0, 0, 0, 0, 0, 0, 0, 0, 142, 0, 0,
    0, 6, 0, 0, 0, 27, 255, 255, 255, 255, 94, 61, 12, 29, 255, 255, 255, 255, 146, 230, 142, 128,
    255, 255, 255, 255, 155, 75, 109, 112, 255, 255, 255, 255, 155, 254, 199, 128, 255, 255, 255,
    255, 156, 156, 251, 128, 255, 255, 255, 255, 157, 201, 131, 112, 255, 255, 255, 255, 158, 126,
    47, 0, 255, 255, 255, 255, 159, 170, 182, 240, 255, 255, 255, 255, 160, 95, 98, 128, 255, 255,
    255, 255, 161, 139, 234, 112, 255, 255, 255, 255, 162, 65, 231, 128, 255, 255, 255, 255, 163,
    110, 111, 112, 255, 255, 255, 255, 164, 35, 27, 0, 255, 255, 255, 255, 165, 79, 162, 240, 255,
    255, 255, 255, 170, 5, 239, 112, 255, 255, 255, 255, 170, 231, 95, 240, 255, 255, 255, 255,
    173, 201, 167, 240, 255, 255, 255, 255, 174, 167, 35, 240, 255, 255, 255, 255, 175, 160, 79,
    112, 255, 255, 255, 255, 176, 135, 5, 240, 255, 255, 255, 255, 177, 137, 107, 240, 255, 255,
    255, 255, 178, 112, 34, 112, 255, 255, 255, 255, 179, 114, 136, 112, 255, 255, 255, 255, 180,
    80, 4, 112, 255, 255, 255, 255, 183, 50, 76, 112, 255, 255, 255, 255, 184, 15, 200, 112, 255,
    255, 255, 255, 184, 255, 185, 112, 255, 255, 255, 255, 185, 239, 170, 112, 255, 255, 255, 255,
    188, 200, 183, 240, 255, 255, 255, 255, 189, 184, 168, 240, 255, 255, 255, 255, 190, 159, 95,
    112, 255, 255, 255, 255, 191, 152, 138, 240, 255, 255, 255, 255, 192, 154, 240, 240, 255, 255,
    255, 255, 193, 120, 108, 240, 255, 255, 255, 255, 194, 104, 93, 240, 255, 255, 255, 255, 195,
    88, 78, 240, 255, 255, 255, 255, 196, 63, 5, 112, 255, 255, 255, 255, 197, 56, 48, 240, 255,
    255, 255, 255, 198, 58, 150, 240, 255, 255, 255, 255, 199, 88, 172, 112, 255, 255, 255, 255,
    199, 217, 223, 112, 255, 255, 255, 255, 201, 3, 210, 112, 255, 255, 255, 255, 201, 241, 32,
    112, 255, 255, 255, 255, 202, 226, 98, 240, 255, 255, 255, 255, 203, 181, 82, 240, 255, 255,
    255, 255, 203, 236, 163, 224, 255, 255, 255, 255, 204, 128, 75, 224, 255, 255, 255, 255, 204,
    220, 162, 240, 255, 255, 255, 255, 205, 149, 52, 240, 255, 255, 255, 255, 205, 195, 75, 96,
    255, 255, 255, 255, 206, 114, 162, 224, 255, 255, 255, 255, 206, 197, 191, 112, 255, 255, 255,
    255, 207, 117, 22, 240, 255, 255, 255, 255, 207, 172, 103, 224, 255, 255, 255, 255, 208, 82,
    132, 224, 255, 255, 255, 255, 208, 165, 161, 112, 255, 255, 255, 255, 209, 84, 248, 240, 255,
    255, 255, 255, 209, 140, 73, 224, 255, 255, 255, 255, 210, 50, 102, 224, 255, 255, 255, 255,
    210, 133, 131, 112, 255, 255, 255, 255, 211, 89, 196, 240, 255, 255, 255, 255, 212, 73, 181,
    240, 255, 255, 255, 255, 213, 57, 209, 32, 255, 255, 255, 255, 214, 41, 194, 32, 255, 255,
    255, 255, 215, 25, 179, 32, 255, 255, 255, 255, 216, 9, 164, 32, 255, 255, 255, 255, 216, 249,
    149, 32, 255, 255, 255, 255, 217, 233, 134, 32, 255, 255, 255, 255, 218, 217, 119, 32, 255,
    255, 255, 255, 219, 201, 104, 32, 255, 255, 255, 255, 220, 185, 89, 32, 255, 255, 255, 255,
    221, 178, 132, 160, 255, 255, 255, 255, 222, 162, 117, 160, 255, 255, 255, 255, 223, 146, 102,
    160, 255, 255, 255, 255, 224, 130, 87, 160, 255, 255, 255, 255, 225, 114, 72, 160, 255, 255,
    255, 255, 226, 98, 57, 160, 255, 255, 255, 255, 227, 82, 42, 160, 255, 255, 255, 255, 228, 66,
    27, 160, 255, 255, 255, 255, 229, 50, 12, 160, 255, 255, 255, 255, 230, 33, 253, 160, 255,
    255, 255, 255, 231, 27, 41, 32, 255, 255, 255, 255, 232, 11, 26, 32, 255, 255, 255, 255, 232,
    251, 11, 32, 255, 255, 255, 255, 233, 234, 252, 32, 255, 255, 255, 255, 234, 218, 237, 32,
    255, 255, 255, 255, 235, 202, 222, 32, 255, 255, 255, 255, 236, 186, 207, 32, 255, 255, 255,
    255, 237, 170, 192, 32, 255, 255, 255, 255, 238, 154, 177, 32, 255, 255, 255, 255, 239, 138,
    162, 32, 255, 255, 255, 255, 240, 122, 147, 32, 255, 255, 255, 255, 241, 106, 132, 32, 255,
    255, 255, 255, 242, 99, 175, 160, 255, 255, 255, 255, 243, 83, 160, 160, 255, 255, 255, 255,
    244, 67, 145, 160, 255, 255, 255, 255, 245, 51, 130, 160, 255, 255, 255, 255, 246, 35, 115,
    160, 255, 255, 255, 255, 247, 19, 100, 160, 255, 255, 255, 255, 248, 3, 85, 160, 255, 255,
    255, 255, 248, 243, 70, 160, 255, 255, 255, 255, 249, 227, 55, 160, 0, 0, 0, 0, 12, 171, 42,
    0, 0, 0, 0, 0, 13, 155, 27, 0, 0, 0, 0, 0, 14, 139, 12, 0, 0, 0, 0, 0, 15, 132, 69, 144, 0, 0,
    0, 0, 16, 116, 54, 144, 0, 0, 0, 0, 17, 100, 39, 144, 0, 0, 0, 0, 18, 84, 24, 144, 0, 0, 0, 0,
    19, 77, 68, 16, 0, 0, 0, 0, 20, 51, 250, 144, 0, 0, 0, 0, 21, 35, 221, 128, 0, 0, 0, 0, 22,
    19, 206, 128, 0, 0, 0, 0, 23, 3, 191, 128, 0, 0, 0, 0, 23, 243, 176, 128, 0, 0, 0, 0, 24, 227,
    161, 128, 0, 0, 0, 0, 25, 211, 146, 128, 0, 0, 0, 0, 26, 195, 131, 128, 0, 0, 0, 0, 27, 188,
    175, 0, 0, 0, 0, 0, 28, 172, 160, 0, 0, 0, 0, 0, 29, 156, 145, 0, 0, 0, 0, 0, 30, 140, 144,
    16, 0, 0, 0, 0, 31, 124, 129, 16, 0, 0, 0, 0, 32, 108, 114, 16, 0, 0, 0, 0, 33, 92, 99, 16, 0,
    0, 0, 0, 34, 76, 84, 16, 0, 0, 0, 0, 35, 60, 69, 16, 0, 0, 0, 0, 36, 44, 54, 16, 0, 0, 0, 0,
    37, 28, 39, 16, 0, 0, 0, 0, 38, 12, 24, 16, 0, 0, 0, 0, 39, 5, 67, 144, 0, 0, 0, 0, 39, 245,
    52, 144, 0, 0, 0, 0, 40, 229, 37, 144, 0, 0, 0, 0, 41, 213, 22, 144, 0, 0, 0, 0, 42, 197, 7,
    144, 0, 0, 0, 0, 43, 180, 248, 144, 0, 0, 0, 0, 44, 164, 233, 144, 0, 0, 0, 0, 45, 148, 218,
    144, 0, 0, 0, 0, 46, 132, 203, 144, 0, 0, 0, 0, 47, 116, 188, 144, 0, 0, 0, 0, 48, 100, 173,
    144, 0, 0, 0, 0, 49, 93, 217, 16, 0, 2, 1, 2, 1, 2, 1, 2, 1, 2, 1, 2, 1, 2, 1, 2, 1, 2, 1, 2,
    1, 2, 1, 2, 1, 2, 1, 2, 1, 2, 1, 2, 1, 2, 1, 2, 1, 2, 1, 2, 1, 2, 1, 2, 1, 3, 1, 2, 1, 3, 1,
    2, 1, 3, 1, 2, 1, 3, 1, 2, 1, 2, 1, 2, 1, 2, 1, 2, 1, 2, 1, 2, 1, 2, 1, 2, 1, 2, 1, 2, 1, 2,
    1, 2, 1, 2, 1, 2, 1, 2, 1, 2, 1, 2, 1, 2, 1, 2, 1, 2, 1, 4, 2, 1, 2, 1, 2, 1, 2, 1, 2, 1, 2,
    1, 2, 1, 2, 1, 2, 1, 2, 1, 2, 1, 2, 1, 2, 1, 2, 1, 2, 1, 2, 1, 4, 5, 4, 5, 4, 5, 4, 1, 255,
    255, 247, 99, 0, 0, 0, 0, 14, 16, 1, 4, 0, 0, 0, 0, 0, 9, 0, 0, 28, 32, 1, 13, 0, 0, 14, 16,
    0, 18, 0, 0, 28, 32, 1, 22, 76, 77, 84, 0, 87, 69, 83, 84, 0, 87, 69, 84, 0, 87, 69, 77, 84,
    0, 67, 69, 84, 0, 67, 69, 83, 84, 0, 10, 87, 69, 84, 48, 87, 69, 83, 84, 44, 77, 51, 46, 53,
    46, 48, 47, 49, 44, 77, 49, 48, 46, 53, 46, 48, 10,
];

/// `Europe/London`.
#[verifier::opaque]
pub const EUROPE_LONDON: [u8; 1599] = [
    84, 90, 105, 102, 50, 0, 0, 0, 0, 0, 0, 0, 0, 0, 0, 0, 0, 0, 0, 0, 0, 0, 0, 0, 0, 0, 0, 0, 0,
    0, 0, 0, 0, 0, 0, 0, 0, 0, 0, 1, 0, 0, 0, 1, 0, 0, 0, 0, 0, 0, 0, 84, 90, 105, 102, 50, 0, 0,
    0, 0, 0, 0, 0, 0, 0, 0, 0, 0, 0, 0, 0, 0, 0, 0, 0, 0, 0, 0, 0, 0, 0, 0, 0, 0, 0, 0, 159, 0, 0,
    0, 5, 0, 0, 0, 17, 255, 255, 255, 255, 26, 93, 9, 203, 255, 255, 255, 255, 155, 38, 173, 160,
    255, 255, 255, 255, 155, 214, 5, 32, 255, 255, 255, 255, 156, 207, 48, 160, 255, 255, 255,
    255, 157, 164, 195, 160, 255, 255, 255, 255, 158, 156, 157, 160, 255, 255, 255, 255, 159, 151,
    26, 160, 255, 255, 255, 255, 160, 133, 186, 32, 255, 255, 255, 255, 161, 118, 252, 160, 255,
    255, 255, 255, 162, 101, 156, 32, 255, 255, 255, 255, 163, 123, 200, 160, 255, 255, 255, 255,
    164, 78, 184, 160, 255, 255, 255, 255, 165, 63, 251, 32, 255, 255, 255, 255, 166, 37, 96, 32,
    255, 255, 255, 255, 167, 39, 198, 32, 255, 255, 255, 255, 168, 42, 44, 32, 255, 255, 255, 255,
    168, 235, 248, 160, 255, 255, 255, 255, 170, 0, 211, 160, 255, 255, 255, 255, 170, 213, 21,
    32, 255, 255, 255, 255, 171, 233, 240, 32, 255, 255, 255, 255, 172, 199, 108, 32, 255, 255,
    255, 255, 173, 201, 210, 32, 255, 255, 255, 255, 174, 167, 78, 32, 255, 255, 255, 255, 175,
    160, 121, 160, 255, 255, 255, 255, 176, 135, 48, 32, 255, 255, 255, 255, 177, 146, 208, 160,
    255, 255, 255, 255, 178, 112, 76, 160, 255, 255, 255, 255, 179, 114, 178, 160, 255, 255, 255,
    255, 180, 80, 46, 160, 255, 255, 255, 255, 181, 73, 90, 32, 255, 255, 255, 255, 182, 48, 16,
    160, 255, 255, 255, 255, 183, 50, 118, 160, 255, 255, 255, 255, 184, 15, 242, 160, 255, 255,
    255, 255, 185, 18, 88, 160, 255, 255, 255, 255, 185, 239, 212, 160, 255, 255, 255, 255, 186,
    233, 0, 32, 255, 255, 255, 255, 187, 216, 241, 32, 255, 255, 255, 255, 188, 219, 87, 32, 255,
    255, 255, 255, 189, 184, 211, 32, 255, 255, 255, 255, 190, 177, 254, 160, 255, 255, 255, 255,
    191, 152, 181, 32, 255, 255, 255, 255, 192, 155, 27, 32, 255, 255, 255, 255, 193, 120, 151,
    32, 255, 255, 255, 255, 194, 122, 253, 32, 255, 255, 255, 255, 195, 88, 121, 32, 255, 255,
    255, 255, 196, 81, 164, 160, 255, 255, 255, 255, 197, 56, 91, 32, 255, 255, 255, 255, 198, 58,
    193, 32, 255, 255, 255, 255, 199, 88, 214, 160, 255, 255, 255, 255, 199, 218, 9, 160, 255,
    255, 255, 255, 202, 22, 38, 144, 255, 255, 255, 255, 202, 151, 89, 144, 255, 255, 255, 255,
    203, 209, 30, 144, 255, 255, 255, 255, 204, 119, 59, 144, 255, 255, 255, 255, 205, 177, 0,
    144, 255, 255, 255, 255, 206, 96, 88, 16, 255, 255, 255, 255, 207, 144, 226, 144, 255, 255,
    255, 255, 208, 110, 94, 144, 255, 255, 255, 255, 209, 114, 22, 16, 255, 255, 255, 255, 209,
    251, 50, 16, 255, 255, 255, 255, 210, 105, 254, 32, 255, 255, 255, 255, 211, 99, 41, 160, 255,
    255, 255, 255, 212, 73, 224, 32, 255, 255, 255, 255, 213, 30, 33, 160, 255, 255, 255, 255,
    213, 66, 253, 144, 255, 255, 255, 255, 213, 223, 224, 16, 255, 255, 255, 255, 214, 78, 172,
    32, 255, 255, 255, 255, 214, 254, 3, 160, 255, 255, 255, 255, 216, 46, 142, 32, 255, 255, 255,
    255, 216, 249, 149, 32, 255, 255, 255, 255, 218, 14, 112, 32, 255, 255, 255, 255, 218, 235,
    236, 32, 255, 255, 255, 255, 219, 229, 23, 160, 255, 255, 255, 255, 220, 203, 206, 32, 255,
    255, 255, 255, 221, 196, 249, 160, 255, 255, 255, 255, 222, 180, 234, 160, 255, 255, 255, 255,
    223, 174, 22, 32, 255, 255, 255, 255, 224, 148, 204, 160, 255, 255, 255, 255, 225, 114, 72,
    160, 255, 255, 255, 255, 226, 107, 116, 32, 255, 255, 255, 255, 227, 82, 42, 160, 255, 255,
    255, 255, 228, 84, 144, 160, 255, 255, 255, 255, 229, 50, 12, 160, 255, 255, 255, 255, 230,
    61, 173, 32, 255, 255, 255, 255, 231, 27, 41, 32, 255, 255, 255, 255, 232, 20, 84, 160, 255,
    255, 255, 255, 232, 251, 11, 32, 255, 255, 255, 255, 233, 253, 113, 32, 255, 255, 255, 255,
    234, 218, 237, 32, 255, 255, 255, 255, 235, 221, 83, 32, 255, 255, 255, 255, 236, 186, 207,
    32, 255, 255, 255, 255, 237, 179, 250, 160, 255, 255, 255, 255, 238, 154, 177, 32, 255, 255,
    255, 255, 239, 129, 103, 160, 255, 255, 255, 255, 240, 159, 125, 32, 255, 255, 255, 255, 241,
    97, 73, 160, 255, 255, 255, 255, 242, 127, 95, 32, 255, 255, 255, 255, 243, 74, 102, 32, 255,
    255, 255, 255, 244, 95, 65, 32, 255, 255, 255, 255, 245, 33, 13, 160, 255, 255, 255, 255, 246,
    63, 35, 32, 255, 255, 255, 255, 247, 0, 239, 160, 255, 255, 255, 255, 248, 31, 5, 32, 255,
    255, 255, 255, 248, 224, 209, 160, 255, 255, 255, 255, 249, 254, 231, 32, 255, 255, 255, 255,
    250, 192, 179, 160, 255, 255, 255, 255, 251, 232, 3, 160, 255, 255, 255, 255, 252, 123, 171,
    160, 255, 255, 255, 255, 253, 199, 187, 112, 0, 0, 0, 0, 3, 112, 198, 32, 0, 0, 0, 0, 4, 41,
    88, 32, 0, 0, 0, 0, 5, 80, 168, 32, 0, 0, 0, 0, 6, 9, 58, 32, 0, 0, 0, 0, 7, 48, 138, 32, 0,
    0, 0, 0, 7, 233, 28, 32, 0, 0, 0, 0, 9, 16, 108, 32, 0, 0, 0, 0, 9, 200, 254, 32, 0, 0, 0, 0,
    10, 240, 78, 32, 0, 0, 0, 0, 11, 178, 26, 160, 0, 0, 0, 0, 12, 208, 48, 32, 0, 0, 0, 0, 13,
    145, 252, 160, 0, 0, 0, 0, 14, 176, 18, 32, 0, 0, 0, 0, 15, 113, 222, 160, 0, 0, 0, 0, 16,
    153, 46, 160, 0, 0, 0, 0, 17, 81, 192, 160, 0, 0, 0, 0, 18, 121, 16, 160, 0, 0, 0, 0, 19, 49,
    162, 160, 0, 0, 0, 0, 20, 88, 242, 160, 0, 0, 0, 0, 21, 35, 235, 144, 0, 0, 0, 0, 22, 56, 198,
    144, 0, 0, 0, 0, 23, 3, 205, 144, 0, 0, 0, 0, 24, 24, 168, 144, 0, 0, 0, 0, 24, 227, 175, 144,
    0, 0, 0, 0, 25, 248, 138, 144, 0, 0, 0, 0, 26, 195, 145, 144, 0, 0, 0, 0, 27, 225, 167, 16, 0,
    0, 0, 0, 28, 172, 174, 16, 0, 0, 0, 0, 29, 193, 137, 16, 0, 0, 0, 0, 30, 140, 144, 16, 0, 0,
    0, 0, 31, 161, 107, 16, 0, 0, 0, 0, 32, 108, 114, 16, 0, 0, 0, 0, 33, 129, 77, 16, 0, 0, 0, 0,
    34, 76, 84, 16, 0, 0, 0, 0, 35, 97, 47, 16, 0, 0, 0, 0, 36, 44, 54, 16, 0, 0, 0, 0, 37, 74,
    75, 144, 0, 0, 0, 0, 38, 12, 24, 16, 0, 0, 0, 0, 39, 42, 45, 144, 0, 0, 0, 0, 39, 245, 52,
    144, 0, 0, 0, 0, 41, 10, 15, 144, 0, 0, 0, 0, 41, 213, 22, 144, 0, 0, 0, 0, 42, 233, 241, 144,
    0, 0, 0, 0, 43, 180, 248, 144, 0, 0, 0, 0, 44, 201, 211, 144, 0, 0, 0, 0, 45, 148, 218, 144,
    0, 0, 0, 0, 46, 169, 181, 144, 0, 0, 0, 0, 47, 116, 188, 144, 0, 0, 0, 0, 48, 137, 151, 144,
    0, 0, 0, 0, 48, 231, 36, 0, 2, 1, 2, 1, 2, 1, 2, 1, 2, 1, 2, 1, 2, 1, 2, 1, 2, 1, 2, 1, 2, 1,
    2, 1, 2, 1, 2, 1, 2, 1, 2, 1, 2, 1, 2, 1, 2, 1, 2, 1, 2, 1, 2, 1, 2, 1, 2, 1, 2, 1, 3, 1, 3,
    1, 3, 1, 3, 1, 3, 1, 2, 1, 2, 1, 3, 1, 2, 1, 2, 1, 2, 1, 2, 1, 2, 1, 2, 1, 2, 1, 2, 1, 2, 1,
    2, 1, 2, 1, 2, 1, 2, 1, 2, 1, 2, 1, 2, 1, 2, 1, 2, 1, 2, 1, 2, 1, 2, 1, 4, 2, 1, 2, 1, 2, 1,
    2, 1, 2, 1, 2, 1, 2, 1, 2, 1, 2, 1, 2, 1, 2, 1, 2, 1, 2, 1, 2, 1, 2, 1, 2, 1, 2, 1, 2, 1, 2,
    1, 2, 1, 2, 1, 2, 1, 2, 1, 2, 1, 2, 2, 255, 255, 255, 181, 0, 0, 0, 0, 14, 16, 1, 4, 0, 0, 0,
    0, 0, 8, 0, 0, 28, 32, 1, 12, 0, 0, 14, 16, 0, 4, 76, 77, 84, 0, 66, 83, 84, 0, 71, 77, 84, 0,
    66, 68, 83, 84, 0, 10, 71, 77, 84, 48, 66, 83, 84, 44, 77, 51, 46, 53, 46, 48, 47, 49, 44, 77,
    49, 48, 46, 53, 46, 48, 10,
];

/// `Europe/Madrid`.
#[verifier::opaque]
pub const EUROPE_MADRID: [u8; 897] = [
    84, 90, 105, 102, 50, 0, 0, 0, 0, 0, 0, 0, 0, 0, 0, 0, 0, 0, 0, 0, 0, 0, 0, 0, 0, 0, 0, 0, 0,
    0, 0, 0, 0, 0, 0, 0, 0, 0, 0, 1, 0, 0, 0, 1, 0, 0, 0, 0, 0, 0, 0, 84, 90, 105, 102, 50, 0, 0,
    0, 0, 0, 0, 0, 0, 0, 0, 0, 0, 0, 0, 0, 0, 0, 0, 0, 0, 0, 0, 0, 0, 0, 0, 0, 0, 0, 0, 79, 0, 0,
    0, 6, 0, 0, 0, 27, 255, 255, 255, 255, 126, 54, 181, 0, 255, 255, 255, 255, 158, 186, 197,
    240, 255, 255, 255, 255, 159, 160, 57, 0, 255, 255, 255, 255, 160, 144, 27, 240, 255, 255,
    255, 255, 161, 129, 108, 128, 255, 255, 255, 255, 170, 5, 239, 112, 255, 255, 255, 255, 170,
    231, 110, 0, 255, 255, 255, 255, 173, 201, 167, 240, 255, 255, 255, 255, 174, 167, 50, 0, 255,
    255, 255, 255, 175, 160, 79, 112, 255, 255, 255, 255, 176, 135, 20, 0, 255, 255, 255, 255,
    177, 137, 122, 0, 255, 255, 255, 255, 178, 112, 48, 128, 255, 255, 255, 255, 179, 114, 136,
    112, 255, 255, 255, 255, 180, 80, 18, 128, 255, 255, 255, 255, 194, 201, 236, 240, 255, 255,
    255, 255, 195, 88, 93, 0, 255, 255, 255, 255, 196, 72, 63, 240, 255, 255, 255, 255, 196, 109,
    27, 224, 255, 255, 255, 255, 197, 57, 116, 96, 255, 255, 255, 255, 199, 33, 91, 128, 255, 255,
    255, 255, 199, 245, 142, 240, 255, 255, 255, 255, 203, 245, 222, 96, 255, 255, 255, 255, 204,
    149, 113, 240, 255, 255, 255, 255, 205, 195, 75, 96, 255, 255, 255, 255, 206, 160, 213, 112,
    255, 255, 255, 255, 207, 163, 45, 96, 255, 255, 255, 255, 208, 128, 183, 112, 255, 255, 255,
    255, 209, 131, 15, 96, 255, 255, 255, 255, 210, 96, 153, 112, 255, 255, 255, 255, 211, 98,
    241, 96, 255, 255, 255, 255, 212, 64, 123, 112, 255, 255, 255, 255, 217, 30, 70, 224, 255,
    255, 255, 255, 217, 233, 91, 240, 0, 0, 0, 0, 8, 13, 205, 224, 0, 0, 0, 0, 8, 244, 146, 112,
    0, 0, 0, 0, 9, 237, 175, 224, 0, 0, 0, 0, 10, 212, 116, 112, 0, 0, 0, 0, 11, 187, 28, 224, 0,
    0, 0, 0, 12, 171, 27, 240, 0, 0, 0, 0, 13, 164, 57, 96, 0, 0, 0, 0, 14, 138, 253, 240, 0, 0,
    0, 0, 15, 132, 69, 144, 0, 0, 0, 0, 16, 116, 54, 144, 0, 0, 0, 0, 17, 100, 39, 144, 0, 0, 0,
    0, 18, 84, 24, 144, 0, 0, 0, 0, 19, 77, 68, 16, 0, 0, 0, 0, 20, 51, 250, 144, 0, 0, 0, 0, 21,
    35, 235, 144, 0, 0, 0, 0, 22, 19, 220, 144, 0, 0, 0, 0, 23, 3, 205, 144, 0, 0, 0, 0, 23, 243,
    190, 144, 0, 0, 0, 0, 24, 227, 175, 144, 0, 0, 0, 0, 25, 211, 160, 144, 0, 0, 0, 0, 26, 195,
    145, 144, 0, 0, 0, 0, 27, 188, 189, 16, 0, 0, 0, 0, 28, 172, 174, 16, 0, 0, 0, 0, 29, 156,
    159, 16, 0, 0, 0, 0, 30, 140, 144, 16, 0, 0, 0, 0, 31, 124, 129, 16, 0, 0, 0, 0, 32, 108, 114,
    16, 0, 0, 0, 0, 33, 92, 99, 16, 0, 0, 0, 0, 34, 76, 84, 16, 0, 0, 0, 0, 35, 60, 69, 16, 0, 0,
    0, 0, 36, 44, 54, 16, 0, 0, 0, 0, 37, 28, 39, 16, 0, 0, 0, 0, 38, 12, 24, 16, 0, 0, 0, 0, 39,
    5, 67, 144, 0, 0, 0, 0, 39, 245, 52, 144, 0, 0, 0, 0, 40, 229, 37, 144, 0, 0, 0, 0, 41, 213,
    22, 144, 0, 0, 0, 0, 42, 197, 7, 144, 0, 0, 0, 0, 43, 180, 248, 144, 0, 0, 0, 0, 44, 164, 233,
    144, 0, 0, 0, 0, 45, 148, 218, 144, 0, 0, 0, 0, 46, 132, 203, 144, 0, 0, 0, 0, 47, 116, 188,
    144, 0, 0, 0, 0, 48, 100, 173, 144, 0, 0, 0, 0, 49, 93, 217, 16, 2, 1, 2, 1, 2, 1, 2, 1, 2, 1,
    2, 1, 2, 1, 2, 1, 2, 1, 3, 1, 2, 5, 4, 5, 4, 5, 4, 5, 4, 5, 4, 5, 4, 5, 4, 5, 4, 5, 4, 5, 4,
    5, 4, 5, 4, 5, 4, 5, 4, 5, 4, 5, 4, 5, 4, 5, 4, 5, 4, 5, 4, 5, 4, 5, 4, 5, 4, 5, 4, 5, 4, 5,
    4, 5, 4, 5, 4, 5, 4, 255, 255, 252, 140, 0, 0, 0, 0, 14, 16, 1, 4, 0, 0, 0, 0, 0, 9, 0, 0, 28,
    32, 1, 13, 0, 0, 28, 32, 1, 18, 0, 0, 14, 16, 0, 23, 76, 77, 84, 0, 87, 69, 83, 84, 0, 87, 69,
    84, 0, 87, 69, 77, 84, 0, 67, 69, 83, 84, 0, 67, 69, 84, 0, 10, 67, 69, 84, 45, 49, 67, 69,
    83, 84, 44, 77, 51, 46, 53, 46, 48, 44, 77, 49, 48, 46, 53, 46, 48, 47, 51, 10,
];

/// `Europe/Malta`.
#[verifier::opaque]
pub const EUROPE_MALTA: [u8; 928] = [
    84, 90, 105, 102, 50, 0, 0, 0, 0, 0, 0, 0, 0, 0, 0, 0, 0, 0, 0, 0, 0, 0, 0, 0, 0, 0, 0, 0, 0,
    0, 0, 0, 0, 0, 0, 0, 0, 0, 0, 1, 0, 0, 0, 1, 0, 0, 0, 0, 0, 0, 0, 84, 90, 105, 102, 50, 0, 0,
    0, 0, 0, 0, 0, 0, 0, 0, 0, 0, 0, 0, 0, 0, 0, 0, 0, 0, 0, 0, 0, 0, 0, 0, 0, 0, 0, 0, 86, 0, 0,
    0, 3, 0, 0, 0, 13, 255, 255, 255, 255, 112, 189, 211, 100, 255, 255, 255, 255, 155, 56, 248,
    112, 255, 255, 255, 255, 155, 213, 204, 224, 255, 255, 255, 255, 156, 197, 203, 240, 255, 255,
    255, 255, 157, 183, 0, 96, 255, 255, 255, 255, 158, 137, 254, 112, 255, 255, 255, 255, 159,
    160, 28, 224, 255, 255, 255, 255, 160, 96, 165, 240, 255, 255, 255, 255, 161, 126, 173, 96,
    255, 255, 255, 255, 162, 92, 55, 112, 255, 255, 255, 255, 163, 76, 26, 96, 255, 255, 255, 255,
    200, 108, 53, 240, 255, 255, 255, 255, 204, 231, 75, 16, 255, 255, 255, 255, 205, 169, 23,
    144, 255, 255, 255, 255, 206, 162, 67, 16, 255, 255, 255, 255, 207, 144, 226, 144, 255, 255,
    255, 255, 208, 110, 94, 144, 255, 255, 255, 255, 209, 114, 22, 16, 255, 255, 255, 255, 210,
    76, 210, 240, 255, 255, 255, 255, 211, 62, 49, 144, 255, 255, 255, 255, 212, 73, 210, 16, 255,
    255, 255, 255, 213, 29, 247, 112, 255, 255, 255, 255, 214, 41, 151, 240, 255, 255, 255, 255,
    214, 235, 128, 144, 255, 255, 255, 255, 216, 9, 150, 16, 255, 255, 255, 255, 249, 51, 181,
    240, 255, 255, 255, 255, 249, 217, 196, 224, 255, 255, 255, 255, 251, 28, 210, 112, 255, 255,
    255, 255, 251, 185, 180, 240, 255, 255, 255, 255, 252, 252, 180, 112, 255, 255, 255, 255, 253,
    153, 150, 240, 255, 255, 255, 255, 254, 229, 208, 240, 255, 255, 255, 255, 255, 130, 179, 112,
    0, 0, 0, 0, 0, 197, 178, 240, 0, 0, 0, 0, 1, 98, 149, 112, 0, 0, 0, 0, 2, 156, 90, 112, 0, 0,
    0, 0, 3, 66, 119, 112, 0, 0, 0, 0, 4, 133, 118, 240, 0, 0, 0, 0, 5, 43, 147, 240, 0, 0, 0, 0,
    6, 26, 51, 112, 0, 0, 0, 0, 7, 10, 36, 112, 0, 0, 0, 0, 8, 23, 22, 112, 0, 0, 0, 0, 8, 218,
    52, 112, 0, 0, 0, 0, 9, 247, 20, 144, 0, 0, 0, 0, 10, 194, 13, 128, 0, 0, 0, 0, 11, 214, 246,
    144, 0, 0, 0, 0, 12, 161, 239, 128, 0, 0, 0, 0, 13, 182, 216, 144, 0, 0, 0, 0, 14, 129, 209,
    128, 0, 0, 0, 0, 15, 150, 186, 144, 0, 0, 0, 0, 16, 97, 179, 128, 0, 0, 0, 0, 17, 118, 156,
    144, 0, 0, 0, 0, 18, 65, 149, 128, 0, 0, 0, 0, 19, 69, 91, 16, 0, 0, 0, 0, 20, 42, 178, 0, 0,
    0, 0, 0, 21, 35, 235, 144, 0, 0, 0, 0, 22, 19, 220, 144, 0, 0, 0, 0, 23, 3, 205, 144, 0, 0, 0,
    0, 23, 243, 190, 144, 0, 0, 0, 0, 24, 227, 175, 144, 0, 0, 0, 0, 25, 211, 160, 144, 0, 0, 0,
    0, 26, 195, 145, 144, 0, 0, 0, 0, 27, 188, 189, 16, 0, 0, 0, 0, 28, 172, 174, 16, 0, 0, 0, 0,
    29, 156, 159, 16, 0, 0, 0, 0, 30, 140, 144, 16, 0, 0, 0, 0, 31, 124, 129, 16, 0, 0, 0, 0, 32,
    108, 114, 16, 0, 0, 0, 0, 33, 92, 99, 16, 0, 0, 0, 0, 34, 76, 84, 16, 0, 0, 0, 0, 35, 60, 69,
    16, 0, 0, 0, 0, 36, 44, 54, 16, 0, 0, 0, 0, 37, 28, 39, 16, 0, 0, 0, 0, 38, 12, 24, 16, 0, 0,
    0, 0, 39, 5, 67, 144, 0, 0, 0, 0, 39, 245, 52, 144, 0, 0, 0, 0, 40, 229, 37, 144, 0, 0, 0, 0,
    41, 213, 22, 144, 0, 0, 0, 0, 42, 197, 7, 144, 0, 0, 0, 0, 43, 180, 248, 144, 0, 0, 0, 0, 44,
    164, 233, 144, 0, 0, 0, 0, 45, 148, 218, 144, 0, 0, 0, 0, 46, 132, 203, 144, 0, 0, 0, 0, 47,
    116, 188, 144, 0, 0, 0, 0, 48, 100, 173, 144, 0, 0, 0, 0, 49, 93, 217, 16, 2, 1, 2, 1, 2, 1,
    2, 1, 2, 1, 2, 1, 2, 1, 2, 1, 2, 1, 2, 1, 2, 1, 2, 1, 2, 1, 2, 1, 2, 1, 2, 1, 2, 1, 2, 1, 2,
    1, 2, 1, 2, 1, 2, 1, 2, 1, 2, 1, 2, 1, 2, 1, 2, 1, 2, 1, 2, 1, 2, 1, 2, 1, 2, 1, 2, 1, 2, 1,
    2, 1, 2, 1, 2, 1, 2, 1, 2, 1, 2, 1, 2, 1, 2, 1, 2, 1, 0, 0, 13, 156, 0, 0, 0, 0, 28, 32, 1, 4,
    0, 0, 14, 16, 0, 9, 76, 77, 84, 0, 67, 69, 83, 84, 0, 67, 69, 84, 0, 10, 67, 69, 84, 45, 49,
    67, 69, 83, 84, 44, 77, 51, 46, 53, 46, 48, 44, 77, 49, 48, 46, 53, 46, 48, 47, 51, 10,
];

/// `Europe/Minsk`.
#[verifier::opaque]
pub const EUROPE_MINSK: [u8; 808] = [
    84, 90, 105, 102, 50, 0, 0, 0, 0, 0, 0, 0, 0, 0, 0, 0, 0, 0, 0, 0, 0, 0, 0, 0, 0, 0, 0, 0, 0,
    0, 0, 0, 0, 0, 0, 0, 0, 0, 0, 1, 0, 0, 0, 1, 0, 0, 0, 0, 0, 0, 0, 84, 90, 105, 102, 50, 0, 0,
    0, 0, 0, 0, 0, 0, 0, 0, 0, 0, 0, 0, 0, 0, 0, 0, 0, 0, 0, 0, 0, 0, 0, 0, 0, 0, 0, 0, 68, 0, 0,
    0, 9, 0, 0, 0, 38, 255, 255, 255, 255, 86, 182, 202, 40, 255, 255, 255, 255, 170, 25, 170, 56,
    255, 255, 255, 255, 181, 164, 25, 96, 255, 255, 255, 255, 202, 94, 112, 208, 255, 255, 255,
    255, 204, 231, 75, 16, 255, 255, 255, 255, 205, 169, 23, 144, 255, 255, 255, 255, 206, 162,
    67, 16, 255, 255, 255, 255, 207, 146, 52, 16, 255, 255, 255, 255, 208, 10, 2, 96, 0, 0, 0, 0,
    21, 39, 167, 208, 0, 0, 0, 0, 22, 24, 220, 64, 0, 0, 0, 0, 23, 8, 219, 80, 0, 0, 0, 0, 23,
    250, 15, 192, 0, 0, 0, 0, 24, 234, 14, 208, 0, 0, 0, 0, 25, 219, 67, 64, 0, 0, 0, 0, 26, 204,
    147, 208, 0, 0, 0, 0, 27, 188, 160, 240, 0, 0, 0, 0, 28, 172, 145, 240, 0, 0, 0, 0, 29, 156,
    130, 240, 0, 0, 0, 0, 30, 140, 115, 240, 0, 0, 0, 0, 31, 124, 100, 240, 0, 0, 0, 0, 32, 108,
    85, 240, 0, 0, 0, 0, 33, 92, 70, 240, 0, 0, 0, 0, 34, 76, 55, 240, 0, 0, 0, 0, 35, 60, 40,
    240, 0, 0, 0, 0, 36, 44, 25, 240, 0, 0, 0, 0, 37, 28, 10, 240, 0, 0, 0, 0, 39, 245, 24, 112,
    0, 0, 0, 0, 40, 229, 23, 128, 0, 0, 0, 0, 41, 213, 8, 128, 0, 0, 0, 0, 42, 196, 249, 128, 0,
    0, 0, 0, 43, 180, 234, 128, 0, 0, 0, 0, 44, 164, 219, 128, 0, 0, 0, 0, 45, 148, 204, 128, 0,
    0, 0, 0, 46, 132, 189, 128, 0, 0, 0, 0, 47, 116, 174, 128, 0, 0, 0, 0, 48, 100, 159, 128, 0,
    0, 0, 0, 49, 93, 203, 0, 0, 0, 0, 0, 50, 114, 166, 0, 0, 0, 0, 0, 51, 61, 173, 0, 0, 0, 0, 0,
    52, 82, 136, 0, 0, 0, 0, 0, 53, 29, 143, 0, 0, 0, 0, 0, 54, 50, 106, 0, 0, 0, 0, 0, 54, 253,
    113, 0, 0, 0, 0, 0, 56, 27, 134, 128, 0, 0, 0, 0, 56, 221, 83, 0, 0, 0, 0, 0, 57, 251, 104,
    128, 0, 0, 0, 0, 58, 189, 53, 0, 0, 0, 0, 0, 59, 219, 74, 128, 0, 0, 0, 0, 60, 166, 81, 128,
    0, 0, 0, 0, 61, 187, 44, 128, 0, 0, 0, 0, 62, 134, 51, 128, 0, 0, 0, 0, 63, 155, 14, 128, 0,
    0, 0, 0, 64, 102, 21, 128, 0, 0, 0, 0, 65, 132, 43, 0, 0, 0, 0, 0, 66, 69, 247, 128, 0, 0, 0,
    0, 67, 100, 13, 0, 0, 0, 0, 0, 68, 37, 217, 128, 0, 0, 0, 0, 69, 67, 239, 0, 0, 0, 0, 0, 70,
    5, 187, 128, 0, 0, 0, 0, 71, 35, 209, 0, 0, 0, 0, 0, 71, 238, 216, 0, 0, 0, 0, 0, 73, 3, 179,
    0, 0, 0, 0, 0, 73, 206, 186, 0, 0, 0, 0, 0, 74, 227, 149, 0, 0, 0, 0, 0, 75, 174, 156, 0, 0,
    0, 0, 0, 76, 204, 177, 128, 0, 0, 0, 0, 77, 142, 126, 0, 1, 2, 3, 5, 4, 5, 4, 5, 3, 6, 3, 6,
    3, 6, 3, 6, 3, 6, 3, 6, 3, 6, 3, 6, 3, 6, 3, 7, 2, 7, 2, 7, 2, 7, 2, 7, 2, 7, 2, 7, 2, 7, 2,
    7, 2, 7, 2, 7, 2, 7, 2, 7, 2, 7, 2, 7, 2, 7, 2, 7, 2, 7, 2, 7, 2, 7, 2, 8, 0, 0, 25, 216, 0,
    0, 0, 0, 25, 200, 0, 4, 0, 0, 28, 32, 0, 8, 0, 0, 42, 48, 0, 12, 0, 0, 14, 16, 0, 16, 0, 0,
    28, 32, 1, 20, 0, 0, 56, 64, 1, 25, 0, 0, 42, 48, 1, 29, 0, 0, 42, 48, 0, 34, 76, 77, 84, 0,
    77, 77, 84, 0, 69, 69, 84, 0, 77, 83, 75, 0, 67, 69, 84, 0, 67, 69, 83, 84, 0, 77, 83, 68, 0,
    69, 69, 83, 84, 0, 43, 48, 51, 0, 10, 60, 43, 48, 51, 62, 45, 51, 10,
];

/// `Europe/Moscow`.
#[verifier::opaque]
pub const EUROPE_MOSCOW: [u8; 908] = [
    84, 90, 105, 102, 50, 0, 0, 0, 0, 0, 0, 0, 0, 0, 0, 0, 0, 0, 0, 0, 0, 0, 0, 0, 0, 0, 0, 0, 0,
    0, 0, 0, 0, 0, 0, 0, 0, 0, 0, 1, 0, 0, 0, 1, 0, 0, 0, 0, 0, 0, 0, 84, 90, 105, 102, 50, 0, 0,
    0, 0, 0, 0, 0, 0, 0, 0, 0, 0, 0, 0, 0, 0, 0, 0, 0, 0, 0, 0, 0, 0, 0, 0, 0, 0, 0, 0, 78, 0, 0,
    0, 11, 0, 0, 0, 38, 255, 255, 255, 255, 86, 182, 192, 199, 255, 255, 255, 255, 155, 95, 30,
    199, 255, 255, 255, 255, 157, 62, 242, 121, 255, 255, 255, 255, 158, 42, 238, 249, 255, 255,
    255, 255, 158, 247, 57, 105, 255, 255, 255, 255, 159, 132, 87, 249, 255, 255, 255, 255, 160,
    216, 108, 233, 255, 255, 255, 255, 161, 0, 57, 128, 255, 255, 255, 255, 161, 60, 166, 64, 255,
    255, 255, 255, 164, 16, 109, 192, 255, 255, 255, 255, 164, 61, 50, 176, 255, 255, 255, 255,
    165, 21, 104, 176, 255, 255, 255, 255, 165, 61, 3, 192, 255, 255, 255, 255, 167, 30, 69, 80,
    255, 255, 255, 255, 181, 164, 25, 96, 0, 0, 0, 0, 21, 39, 167, 208, 0, 0, 0, 0, 22, 24, 220,
    64, 0, 0, 0, 0, 23, 8, 219, 80, 0, 0, 0, 0, 23, 250, 15, 192, 0, 0, 0, 0, 24, 234, 14, 208, 0,
    0, 0, 0, 25, 219, 67, 64, 0, 0, 0, 0, 26, 204, 147, 208, 0, 0, 0, 0, 27, 188, 160, 240, 0, 0,
    0, 0, 28, 172, 145, 240, 0, 0, 0, 0, 29, 156, 130, 240, 0, 0, 0, 0, 30, 140, 115, 240, 0, 0,
    0, 0, 31, 124, 100, 240, 0, 0, 0, 0, 32, 108, 85, 240, 0, 0, 0, 0, 33, 92, 70, 240, 0, 0, 0,
    0, 34, 76, 55, 240, 0, 0, 0, 0, 35, 60, 40, 240, 0, 0, 0, 0, 36, 44, 25, 240, 0, 0, 0, 0, 37,
    28, 10, 240, 0, 0, 0, 0, 38, 11, 251, 240, 0, 0, 0, 0, 39, 5, 39, 112, 0, 0, 0, 0, 39, 245,
    24, 112, 0, 0, 0, 0, 40, 229, 23, 128, 0, 0, 0, 0, 41, 120, 191, 128, 0, 0, 0, 0, 41, 212,
    250, 112, 0, 0, 0, 0, 42, 196, 235, 112, 0, 0, 0, 0, 43, 180, 220, 112, 0, 0, 0, 0, 44, 164,
    205, 112, 0, 0, 0, 0, 45, 148, 190, 112, 0, 0, 0, 0, 46, 132, 175, 112, 0, 0, 0, 0, 47, 116,
    160, 112, 0, 0, 0, 0, 48, 100, 145, 112, 0, 0, 0, 0, 49, 93, 188, 240, 0, 0, 0, 0, 50, 114,
    151, 240, 0, 0, 0, 0, 51, 61, 158, 240, 0, 0, 0, 0, 52, 82, 121, 240, 0, 0, 0, 0, 53, 29, 128,
    240, 0, 0, 0, 0, 54, 50, 91, 240, 0, 0, 0, 0, 54, 253, 98, 240, 0, 0, 0, 0, 56, 27, 120, 112,
    0, 0, 0, 0, 56, 221, 68, 240, 0, 0, 0, 0, 57, 251, 90, 112, 0, 0, 0, 0, 58, 189, 38, 240, 0,
    0, 0, 0, 59, 219, 60, 112, 0, 0, 0, 0, 60, 166, 67, 112, 0, 0, 0, 0, 61, 187, 30, 112, 0, 0,
    0, 0, 62, 134, 37, 112, 0, 0, 0, 0, 63, 155, 0, 112, 0, 0, 0, 0, 64, 102, 7, 112, 0, 0, 0, 0,
    65, 132, 28, 240, 0, 0, 0, 0, 66, 69, 233, 112, 0, 0, 0, 0, 67, 99, 254, 240, 0, 0, 0, 0, 68,
    37, 203, 112, 0, 0, 0, 0, 69, 67, 224, 240, 0, 0, 0, 0, 70, 5, 173, 112, 0, 0, 0, 0, 71, 35,
    194, 240, 0, 0, 0, 0, 71, 238, 201, 240, 0, 0, 0, 0, 73, 3, 164, 240, 0, 0, 0, 0, 73, 206,
    171, 240, 0, 0, 0, 0, 74, 227, 134, 240, 0, 0, 0, 0, 75, 174, 141, 240, 0, 0, 0, 0, 76, 204,
    163, 112, 0, 0, 0, 0, 77, 142, 111, 240, 0, 0, 0, 0, 84, 76, 29, 96, 1, 3, 2, 3, 4, 2, 4, 5,
    6, 5, 7, 5, 6, 8, 6, 5, 6, 5, 6, 5, 6, 5, 6, 5, 6, 5, 6, 5, 6, 5, 6, 5, 6, 5, 6, 9, 8, 6, 5,
    6, 5, 6, 5, 6, 5, 6, 5, 6, 5, 6, 5, 6, 5, 6, 5, 6, 5, 6, 5, 6, 5, 6, 5, 6, 5, 6, 5, 6, 5, 6,
    5, 6, 5, 6, 5, 6, 10, 6, 0, 0, 35, 57, 0, 0, 0, 0, 35, 57, 0, 4, 0, 0, 49, 135, 1, 8, 0, 0,
    35, 119, 0, 4, 0, 0, 63, 151, 1, 12, 0, 0, 56, 64, 1, 17, 0, 0, 42, 48, 0, 21, 0, 0, 70, 80,
    1, 25, 0, 0, 28, 32, 0, 29, 0, 0, 42, 48, 1, 33, 0, 0, 56, 64, 0, 21, 76, 77, 84, 0, 77, 77,
    84, 0, 77, 83, 84, 0, 77, 68, 83, 84, 0, 77, 83, 68, 0, 77, 83, 75, 0, 43, 48, 53, 0, 69, 69,
    84, 0, 69, 69, 83, 84, 0, 10, 77, 83, 75, 45, 51, 10,
];

/// `Europe/Paris`.
#[verifier::opaque]
pub const EUROPE_PARIS: [u8; 1105] = [
    84, 90, 105, 102, 50, 0, 0, 0, 0, 0, 0, 0, 0, 0, 0, 0, 0, 0, 0, 0, 0, 0, 0, 0, 0, 0, 0, 0, 0,
    0, 0, 0, 0, 0, 0, 0, 0, 0, 0, 1, 0, 0, 0, 1, 0, 0, 0, 0, 0, 0, 0, 84, 90, 105, 102, 50, 0, 0,
    0, 0, 0, 0, 0, 0, 0, 0, 0, 0, 0, 0, 0, 0, 0, 0, 0, 0, 0, 0, 0, 0, 0, 0, 0, 0, 0, 0, 101, 0, 0,
    0, 7, 0, 0, 0, 31, 255, 255, 255, 255, 107, 201, 155, 207, 255, 255, 255, 255, 145, 96, 80,
    79, 255, 255, 255, 255, 155, 71, 120, 240, 255, 255, 255, 255, 155, 215, 44, 112, 255, 255,
    255, 255, 156, 188, 145, 112, 255, 255, 255, 255, 157, 192, 72, 240, 255, 255, 255, 255, 158,
    137, 254, 112, 255, 255, 255, 255, 159, 160, 42, 240, 255, 255, 255, 255, 160, 96, 165, 240,
    255, 255, 255, 255, 161, 128, 12, 240, 255, 255, 255, 255, 162, 46, 18, 240, 255, 255, 255,
    255, 163, 122, 76, 240, 255, 255, 255, 255, 164, 53, 129, 240, 255, 255, 255, 255, 165, 94,
    35, 112, 255, 255, 255, 255, 166, 37, 53, 240, 255, 255, 255, 255, 167, 39, 155, 240, 255,
    255, 255, 255, 168, 88, 38, 112, 255, 255, 255, 255, 169, 7, 125, 240, 255, 255, 255, 255,
    169, 238, 52, 112, 255, 255, 255, 255, 170, 231, 95, 240, 255, 255, 255, 255, 171, 215, 80,
    240, 255, 255, 255, 255, 172, 199, 65, 240, 255, 255, 255, 255, 173, 201, 167, 240, 255, 255,
    255, 255, 174, 167, 35, 240, 255, 255, 255, 255, 175, 160, 79, 112, 255, 255, 255, 255, 176,
    135, 5, 240, 255, 255, 255, 255, 177, 137, 107, 240, 255, 255, 255, 255, 178, 112, 34, 112,
    255, 255, 255, 255, 179, 114, 136, 112, 255, 255, 255, 255, 180, 80, 4, 112, 255, 255, 255,
    255, 181, 73, 47, 240, 255, 255, 255, 255, 182, 47, 230, 112, 255, 255, 255, 255, 183, 50, 76,
    112, 255, 255, 255, 255, 184, 15, 200, 112, 255, 255, 255, 255, 184, 255, 185, 112, 255, 255,
    255, 255, 185, 239, 170, 112, 255, 255, 255, 255, 186, 214, 96, 240, 255, 255, 255, 255, 187,
    216, 198, 240, 255, 255, 255, 255, 188, 200, 183, 240, 255, 255, 255, 255, 189, 184, 168, 240,
    255, 255, 255, 255, 190, 159, 95, 112, 255, 255, 255, 255, 191, 152, 138, 240, 255, 255, 255,
    255, 192, 154, 240, 240, 255, 255, 255, 255, 193, 120, 108, 240, 255, 255, 255, 255, 194, 104,
    93, 240, 255, 255, 255, 255, 195, 88, 78, 240, 255, 255, 255, 255, 196, 63, 5, 112, 255, 255,
    255, 255, 197, 56, 48, 240, 255, 255, 255, 255, 198, 58, 150, 240, 255, 255, 255, 255, 199,
    88, 172, 112, 255, 255, 255, 255, 199, 218, 9, 160, 255, 255, 255, 255, 200, 108, 39, 224,
    255, 255, 255, 255, 204, 231, 75, 16, 255, 255, 255, 255, 205, 169, 23, 144, 255, 255, 255,
    255, 206, 162, 67, 16, 255, 255, 255, 255, 207, 146, 52, 16, 255, 255, 255, 255, 208, 79, 225,
    224, 255, 255, 255, 255, 208, 137, 241, 240, 255, 255, 255, 255, 209, 114, 22, 16, 255, 255,
    255, 255, 210, 78, 64, 144, 0, 0, 0, 0, 11, 187, 57, 0, 0, 0, 0, 0, 12, 171, 27, 240, 0, 0, 0,
    0, 13, 164, 99, 144, 0, 0, 0, 0, 14, 139, 26, 16, 0, 0, 0, 0, 15, 132, 69, 144, 0, 0, 0, 0,
    16, 116, 54, 144, 0, 0, 0, 0, 17, 100, 39, 144, 0, 0, 0, 0, 18, 84, 24, 144, 0, 0, 0, 0, 19,
    77, 68, 16, 0, 0, 0, 0, 20, 51, 250, 144, 0, 0, 0, 0, 21, 35, 235, 144, 0, 0, 0, 0, 22, 19,
    220, 144, 0, 0, 0, 0, 23, 3, 205, 144, 0, 0, 0, 0, 23, 243, 190, 144, 0, 0, 0, 0, 24, 227,
    175, 144, 0, 0, 0, 0, 25, 211, 160, 144, 0, 0, 0, 0, 26, 195, 145, 144, 0, 0, 0, 0, 27, 188,
    189, 16, 0, 0, 0, 0, 28, 172, 174, 16, 0, 0, 0, 0, 29, 156, 159, 16, 0, 0, 0, 0, 30, 140, 144,
    16, 0, 0, 0, 0, 31, 124, 129, 16, 0, 0, 0, 0, 32, 108, 114, 16, 0, 0, 0, 0, 33, 92, 99, 16, 0,
    0, 0, 0, 34, 76, 84, 16, 0, 0, 0, 0, 35, 60, 69, 16, 0, 0, 0, 0, 36, 44, 54, 16, 0, 0, 0, 0,
    37, 28, 39, 16, 0, 0, 0, 0, 38, 12, 24, 16, 0, 0, 0, 0, 39, 5, 67, 144, 0, 0, 0, 0, 39, 245,
    52, 144, 0, 0, 0, 0, 40, 229, 37, 144, 0, 0, 0, 0, 41, 213, 22, 144, 0, 0, 0, 0, 42, 197, 7,
    144, 0, 0, 0, 0, 43, 180, 248, 144, 0, 0, 0, 0, 44, 164, 233, 144, 0, 0, 0, 0, 45, 148, 218,
    144, 0, 0, 0, 0, 46, 132, 203, 144, 0, 0, 0, 0, 47, 116, 188, 144, 0, 0, 0, 0, 48, 100, 173,
    144, 0, 0, 0, 0, 49, 93, 217, 16, 1, 3, 2, 3, 2, 3, 2, 3, 2, 3, 2, 3, 2, 3, 2, 3, 2, 3, 2, 3,
    2, 3, 2, 3, 2, 3, 2, 3, 2, 3, 2, 3, 2, 3, 2, 3, 2, 3, 2, 3, 2, 3, 2, 3, 2, 3, 2, 3, 2, 3, 2,
    5, 4, 5, 4, 5, 6, 2, 6, 4, 5, 4, 5, 4, 5, 4, 5, 4, 5, 4, 5, 4, 5, 4, 5, 4, 5, 4, 5, 4, 5, 4,
    5, 4, 5, 4, 5, 4, 5, 4, 5, 4, 5, 4, 5, 4, 5, 4, 5, 4, 5, 0, 0, 2, 49, 0, 0, 0, 0, 2, 49, 0, 4,
    0, 0, 14, 16, 1, 8, 0, 0, 0, 0, 0, 13, 0, 0, 14, 16, 0, 17, 0, 0, 28, 32, 1, 21, 0, 0, 28, 32,
    1, 26, 76, 77, 84, 0, 80, 77, 84, 0, 87, 69, 83, 84, 0, 87, 69, 84, 0, 67, 69, 84, 0, 67, 69,
    83, 84, 0, 87, 69, 77, 84, 0, 10, 67, 69, 84, 45, 49, 67, 69, 83, 84, 44, 77, 51, 46, 53, 46,
    48, 44, 77, 49, 48, 46, 53, 46, 48, 47, 51, 10,
];

/// `Europe/Prague`.
#[verifier::opaque]
pub const EUROPE_PRAGUE: [u8; 723] = [
    84, 90, 105, 102, 50, 0, 0, 0, 0, 0, 0, 0, 0, 0, 0, 0, 0, 0, 0, 0, 0, 0, 0, 0, 0, 0, 0, 0, 0,
    0, 0, 0, 0, 0, 0, 0, 0, 0, 0, 1, 0, 0, 0, 1, 0, 0, 0, 0, 0, 0, 0, 84, 90, 105, 102, 50, 0, 0,
    0, 0, 0, 0, 0, 0, 0, 0, 0, 0, 0, 0, 0, 0, 0, 0, 0, 0, 0, 0, 0, 0, 0, 0, 0, 0, 0, 0, 61, 0, 0,
    0, 5, 0, 0, 0, 21, 255, 255, 255, 255, 30, 73, 146, 248, 255, 255, 255, 255, 108, 207, 234,
    248, 255, 255, 255, 255, 155, 12, 23, 96, 255, 255, 255, 255, 155, 213, 218, 240, 255, 255,
    255, 255, 156, 217, 174, 144, 255, 255, 255, 255, 157, 164, 181, 144, 255, 255, 255, 255, 158,
    185, 144, 144, 255, 255, 255, 255, 159, 132, 151, 144, 255, 255, 255, 255, 200, 9, 113, 144,
    255, 255, 255, 255, 204, 231, 75, 16, 255, 255, 255, 255, 205, 169, 23, 144, 255, 255, 255,
    255, 206, 162, 67, 16, 255, 255, 255, 255, 207, 146, 52, 16, 255, 255, 255, 255, 208, 130, 37,
    16, 255, 255, 255, 255, 209, 114, 22, 16, 255, 255, 255, 255, 210, 98, 7, 16, 255, 255, 255,
    255, 211, 128, 28, 144, 255, 255, 255, 255, 212, 73, 210, 16, 255, 255, 255, 255, 212, 147,
    180, 32, 255, 255, 255, 255, 213, 2, 114, 32, 255, 255, 255, 255, 213, 76, 56, 16, 255, 255,
    255, 255, 214, 41, 180, 16, 255, 255, 255, 255, 215, 44, 26, 16, 255, 255, 255, 255, 216, 9,
    150, 16, 255, 255, 255, 255, 217, 1, 112, 16, 255, 255, 255, 255, 217, 233, 120, 16, 0, 0, 0,
    0, 17, 100, 39, 144, 0, 0, 0, 0, 18, 84, 24, 144, 0, 0, 0, 0, 19, 77, 68, 16, 0, 0, 0, 0, 20,
    51, 250, 144, 0, 0, 0, 0, 21, 35, 235, 144, 0, 0, 0, 0, 22, 19, 220, 144, 0, 0, 0, 0, 23, 3,
    205, 144, 0, 0, 0, 0, 23, 243, 190, 144, 0, 0, 0, 0, 24, 227, 175, 144, 0, 0, 0, 0, 25, 211,
    160, 144, 0, 0, 0, 0, 26, 195, 145, 144, 0, 0, 0, 0, 27, 188, 189, 16, 0, 0, 0, 0, 28, 172,
    174, 16, 0, 0, 0, 0, 29, 156, 159, 16, 0, 0, 0, 0, 30, 140, 144, 16, 0, 0, 0, 0, 31, 124, 129,
    16, 0, 0, 0, 0, 32, 108, 114, 16, 0, 0, 0, 0, 33, 92, 99, 16, 0, 0, 0, 0, 34, 76, 84, 16, 0,
    0, 0, 0, 35, 60, 69, 16, 0, 0, 0, 0, 36, 44, 54, 16, 0, 0, 0, 0, 37, 28, 39, 16, 0, 0, 0, 0,
    38, 12, 24, 16, 0, 0, 0, 0, 39, 5, 67, 144, 0, 0, 0, 0, 39, 245, 52, 144, 0, 0, 0, 0, 40, 229,
    37, 144, 0, 0, 0, 0, 41, 213, 22, 144, 0, 0, 0, 0, 42, 197, 7, 144, 0, 0, 0, 0, 43, 180, 248,
    144, 0, 0, 0, 0, 44, 164, 233, 144, 0, 0, 0, 0, 45, 148, 218, 144, 0, 0, 0, 0, 46, 132, 203,
    144, 0, 0, 0, 0, 47, 116, 188, 144, 0, 0, 0, 0, 48, 100, 173, 144, 0, 0, 0, 0, 49, 93, 217,
    16, 1, 3, 2, 3, 2, 3, 2, 3, 2, 3, 2, 3, 2, 3, 2, 3, 2, 3, 4, 3, 2, 3, 2, 3, 2, 3, 2, 3, 2, 3,
    2, 3, 2, 3, 2, 3, 2, 3, 2, 3, 2, 3, 2, 3, 2, 3, 2, 3, 2, 3, 2, 3, 2, 3, 2, 3, 2, 3, 2, 3, 2,
    0, 0, 13, 136, 0, 0, 0, 0, 13, 136, 0, 4, 0, 0, 28, 32, 1, 8, 0, 0, 14, 16, 0, 13, 0, 0, 0, 0,
    1, 17, 76, 77, 84, 0, 80, 77, 84, 0, 67, 69, 83, 84, 0, 67, 69, 84, 0, 71, 77, 84, 0, 10, 67,
    69, 84, 45, 49, 67, 69, 83, 84, 44, 77, 51, 46, 53, 46, 48, 44, 77, 49, 48, 46, 53, 46, 48,
    47, 51, 10,
];

/// `Europe/Riga`.
#[verifier::opaque]
pub const EUROPE_RIGA: [u8; 694] = [
    84, 90, 105, 102, 50, 0, 0, 0, 0, 0, 0, 0, 0, 0, 0, 0, 0, 0, 0, 0, 0, 0, 0, 0, 0, 0, 0, 0, 0,
    0, 0, 0, 0, 0, 0, 0, 0, 0, 0, 1, 0, 0, 0, 1, 0, 0, 0, 0, 0, 0, 0, 84, 90, 105, 102, 50, 0, 0,
    0, 0, 0, 0, 0, 0, 0, 0, 0, 0, 0, 0, 0, 0, 0, 0, 0, 0, 0, 0, 0, 0, 0, 0, 0, 0, 0, 0, 53, 0, 0,
    0, 9, 0, 0, 0, 38, 255, 255, 255, 255, 86, 182, 205, 94, 255, 255, 255, 255, 158, 185, 135,
    254, 255, 255, 255, 255, 159, 132, 142, 254, 255, 255, 255, 255, 160, 136, 70, 126, 255, 255,
    255, 255, 160, 203, 130, 254, 255, 255, 255, 255, 173, 231, 241, 222, 255, 255, 255, 255, 200,
    175, 100, 96, 255, 255, 255, 255, 202, 98, 101, 80, 255, 255, 255, 255, 204, 231, 75, 16, 255,
    255, 255, 255, 205, 169, 23, 144, 255, 255, 255, 255, 206, 162, 67, 16, 255, 255, 255, 255,
    207, 146, 52, 16, 255, 255, 255, 255, 208, 130, 37, 16, 255, 255, 255, 255, 208, 144, 137,
    112, 0, 0, 0, 0, 21, 39, 167, 208, 0, 0, 0, 0, 22, 24, 220, 64, 0, 0, 0, 0, 23, 8, 219, 80, 0,
    0, 0, 0, 23, 250, 15, 192, 0, 0, 0, 0, 24, 234, 14, 208, 0, 0, 0, 0, 25, 219, 67, 64, 0, 0, 0,
    0, 26, 204, 147, 208, 0, 0, 0, 0, 27, 188, 160, 240, 0, 0, 0, 0, 28, 172, 145, 240, 0, 0, 0,
    0, 29, 156, 130, 240, 0, 0, 0, 0, 30, 140, 115, 240, 0, 0, 0, 0, 31, 124, 100, 240, 0, 0, 0,
    0, 32, 108, 85, 240, 0, 0, 0, 0, 33, 92, 70, 240, 0, 0, 0, 0, 34, 76, 55, 240, 0, 0, 0, 0, 35,
    60, 40, 240, 0, 0, 0, 0, 36, 44, 25, 240, 0, 0, 0, 0, 37, 28, 25, 0, 0, 0, 0, 0, 38, 12, 10,
    0, 0, 0, 0, 0, 39, 5, 53, 128, 0, 0, 0, 0, 39, 245, 38, 128, 0, 0, 0, 0, 40, 229, 23, 128, 0,
    0, 0, 0, 41, 213, 8, 128, 0, 0, 0, 0, 42, 196, 249, 128, 0, 0, 0, 0, 43, 180, 234, 128, 0, 0,
    0, 0, 44, 164, 219, 128, 0, 0, 0, 0, 45, 148, 204, 128, 0, 0, 0, 0, 46, 132, 189, 128, 0, 0,
    0, 0, 47, 116, 174, 128, 0, 0, 0, 0, 48, 100, 159, 128, 0, 0, 0, 0, 49, 93, 203, 0, 0, 0, 0,
    0, 50, 77, 188, 0, 0, 0, 0, 0, 51, 61, 187, 16, 0, 0, 0, 0, 52, 82, 150, 16, 0, 0, 0, 0, 53,
    29, 157, 16, 0, 0, 0, 0, 54, 50, 120, 16, 0, 0, 0, 0, 54, 253, 127, 16, 0, 0, 0, 0, 56, 27,
    148, 144, 0, 0, 0, 0, 58, 80, 253, 224, 1, 2, 1, 2, 1, 3, 4, 6, 5, 6, 5, 6, 5, 4, 7, 4, 7, 4,
    7, 4, 7, 4, 7, 4, 7, 4, 7, 4, 7, 4, 8, 3, 8, 3, 8, 3, 8, 3, 8, 3, 8, 3, 8, 3, 8, 3, 8, 3, 8,
    3, 8, 3, 3, 0, 0, 22, 162, 0, 0, 0, 0, 22, 162, 0, 4, 0, 0, 36, 178, 1, 8, 0, 0, 28, 32, 0,
    12, 0, 0, 42, 48, 0, 16, 0, 0, 14, 16, 0, 20, 0, 0, 28, 32, 1, 24, 0, 0, 56, 64, 1, 29, 0, 0,
    42, 48, 1, 33, 76, 77, 84, 0, 82, 77, 84, 0, 76, 83, 84, 0, 69, 69, 84, 0, 77, 83, 75, 0, 67,
    69, 84, 0, 67, 69, 83, 84, 0, 77, 83, 68, 0, 69, 69, 83, 84, 0, 10, 69, 69, 84, 45, 50, 69,
    69, 83, 84, 44, 77, 51, 46, 53, 46, 48, 47, 51, 44, 77, 49, 48, 46, 53, 46, 48, 47, 52, 10,
];

/// `Europe/Rome`.
#[verifier::opaque]
pub const EUROPE_ROME: [u8; 947] = [
    84, 90, 105, 102, 50, 0, 0, 0, 0, 0, 0, 0, 0, 0, 0, 0, 0, 0, 0, 0, 0, 0, 0, 0, 0, 0, 0, 0, 0,
    0, 0, 0, 0, 0, 0, 0, 0, 0, 0, 1, 0, 0, 0, 1, 0, 0, 0, 0, 0, 0, 0, 84, 90, 105, 102, 50, 0, 0,
    0, 0, 0, 0, 0, 0, 0, 0, 0, 0, 0, 0, 0, 0, 0, 0, 0, 0, 0, 0, 0, 0, 0, 0, 0, 0, 0, 0, 87, 0, 0,
    0, 4, 0, 0, 0, 17, 255, 255, 255, 255, 62, 40, 232, 76, 255, 255, 255, 255, 112, 188, 129,
    112, 255, 255, 255, 255, 155, 56, 248, 112, 255, 255, 255, 255, 155, 213, 204, 224, 255, 255,
    255, 255, 156, 197, 203, 240, 255, 255, 255, 255, 157, 183, 0, 96, 255, 255, 255, 255, 158,
    137, 254, 112, 255, 255, 255, 255, 159, 160, 28, 224, 255, 255, 255, 255, 160, 96, 165, 240,
    255, 255, 255, 255, 161, 126, 173, 96, 255, 255, 255, 255, 162, 92, 55, 112, 255, 255, 255,
    255, 163, 76, 26, 96, 255, 255, 255, 255, 200, 108, 53, 240, 255, 255, 255, 255, 204, 231, 75,
    16, 255, 255, 255, 255, 205, 169, 23, 144, 255, 255, 255, 255, 206, 162, 67, 16, 255, 255,
    255, 255, 207, 146, 52, 16, 255, 255, 255, 255, 208, 110, 94, 144, 255, 255, 255, 255, 209,
    114, 22, 16, 255, 255, 255, 255, 210, 76, 210, 240, 255, 255, 255, 255, 211, 62, 49, 144, 255,
    255, 255, 255, 212, 73, 210, 16, 255, 255, 255, 255, 213, 29, 247, 112, 255, 255, 255, 255,
    214, 41, 151, 240, 255, 255, 255, 255, 214, 235, 128, 144, 255, 255, 255, 255, 216, 9, 150,
    16, 255, 255, 255, 255, 249, 51, 181, 240, 255, 255, 255, 255, 249, 217, 196, 224, 255, 255,
    255, 255, 251, 28, 210, 112, 255, 255, 255, 255, 251, 185, 180, 240, 255, 255, 255, 255, 252,
    252, 180, 112, 255, 255, 255, 255, 253, 153, 150, 240, 255, 255, 255, 255, 254, 229, 208, 240,
    255, 255, 255, 255, 255, 130, 179, 112, 0, 0, 0, 0, 0, 197, 178, 240, 0, 0, 0, 0, 1, 98, 149,
    112, 0, 0, 0, 0, 2, 156, 90, 112, 0, 0, 0, 0, 3, 66, 119, 112, 0, 0, 0, 0, 4, 133, 118, 240,
    0, 0, 0, 0, 5, 43, 147, 240, 0, 0, 0, 0, 6, 110, 147, 112, 0, 0, 0, 0, 7, 11, 117, 240, 0, 0,
    0, 0, 8, 69, 58, 240, 0, 0, 0, 0, 8, 235, 87, 240, 0, 0, 0, 0, 10, 46, 87, 112, 0, 0, 0, 0,
    10, 203, 57, 240, 0, 0, 0, 0, 12, 14, 57, 112, 0, 0, 0, 0, 12, 171, 27, 240, 0, 0, 0, 0, 13,
    228, 224, 240, 0, 0, 0, 0, 14, 138, 253, 240, 0, 0, 0, 0, 15, 205, 253, 112, 0, 0, 0, 0, 16,
    116, 26, 112, 0, 0, 0, 0, 17, 173, 223, 112, 0, 0, 0, 0, 18, 83, 252, 112, 0, 0, 0, 0, 19, 77,
    68, 16, 0, 0, 0, 0, 20, 51, 250, 144, 0, 0, 0, 0, 21, 35, 235, 144, 0, 0, 0, 0, 22, 19, 220,
    144, 0, 0, 0, 0, 23, 3, 205, 144, 0, 0, 0, 0, 23, 243, 190, 144, 0, 0, 0, 0, 24, 227, 175,
    144, 0, 0, 0, 0, 25, 211, 160, 144, 0, 0, 0, 0, 26, 195, 145, 144, 0, 0, 0, 0, 27, 188, 189,
    16, 0, 0, 0, 0, 28, 172, 174, 16, 0, 0, 0, 0, 29, 156, 159, 16, 0, 0, 0, 0, 30, 140, 144, 16,
    0, 0, 0, 0, 31, 124, 129, 16, 0, 0, 0, 0, 32, 108, 114, 16, 0, 0, 0, 0, 33, 92, 99, 16, 0, 0,
    0, 0, 34, 76, 84, 16, 0, 0, 0, 0, 35, 60, 69, 16, 0, 0, 0, 0, 36, 44, 54, 16, 0, 0, 0, 0, 37,
    28, 39, 16, 0, 0, 0, 0, 38, 12, 24, 16, 0, 0, 0, 0, 39, 5, 67, 144, 0, 0, 0, 0, 39, 245, 52,
    144, 0, 0, 0, 0, 40, 229, 37, 144, 0, 0, 0, 0, 41, 213, 22, 144, 0, 0, 0, 0, 42, 197, 7, 144,
    0, 0, 0, 0, 43, 180, 248, 144, 0, 0, 0, 0, 44, 164, 233, 144, 0, 0, 0, 0, 45, 148, 218, 144,
    0, 0, 0, 0, 46, 132, 203, 144, 0, 0, 0, 0, 47, 116, 188, 144, 0, 0, 0, 0, 48, 100, 173, 144,
    0, 0, 0, 0, 49, 93, 217, 16, 1, 3, 2, 3, 2, 3, 2, 3, 2, 3, 2, 3, 2, 3, 2, 3, 2, 3, 2, 3, 2, 3,
    2, 3, 2, 3, 2, 3, 2, 3, 2, 3, 2, 3, 2, 3, 2, 3, 2, 3, 2, 3, 2, 3, 2, 3, 2, 3, 2, 3, 2, 3, 2,
    3, 2, 3, 2, 3, 2, 3, 2, 3, 2, 3, 2, 3, 2, 3, 2, 3, 2, 3, 2, 3, 2, 3, 2, 3, 2, 3, 2, 3, 2, 3,
    2, 3, 2, 0, 0, 11, 180, 0, 0, 0, 0, 11, 180, 0, 4, 0, 0, 28, 32, 1, 8, 0, 0, 14, 16, 0, 13,
    76, 77, 84, 0, 82, 77, 84, 0, 67, 69, 83, 84, 0, 67, 69, 84, 0, 10, 67, 69, 84, 45, 49, 67,
    69, 83, 84, 44, 77, 51, 46, 53, 46, 48, 44, 77, 49, 48, 46, 53, 46, 48, 47, 51, 10,
];

/// `Europe/Samara`.
#[verifier::opaque]
pub const EUROPE_SAMARA: [u8; 732] = [
    84, 90, 105, 102, 50, 0, 0, 0, 0, 0, 0, 0, 0, 0, 0, 0, 0, 0, 0, 0, 0, 0, 0, 0, 0, 0, 0, 0, 0,
    0, 0, 0, 0, 0, 0, 0, 0, 0, 0, 1, 0, 0, 0, 1, 0, 0, 0, 0, 0, 0, 0, 84, 90, 105, 102, 50, 0, 0,
    0, 0, 0, 0, 0, 0, 0, 0, 0, 0, 0, 0, 0, 0, 0, 0, 0, 0, 0, 0, 0, 0, 0, 0, 0, 0, 0, 0, 64, 0, 0,
    0, 6, 0, 0, 0, 16, 255, 255, 255, 255, 161, 0, 57, 128, 255, 255, 255, 255, 181, 164, 11, 80,
    0, 0, 0, 0, 21, 39, 153, 192, 0, 0, 0, 0, 22, 24, 206, 48, 0, 0, 0, 0, 23, 8, 205, 64, 0, 0,
    0, 0, 23, 250, 1, 176, 0, 0, 0, 0, 24, 234, 0, 192, 0, 0, 0, 0, 25, 219, 53, 48, 0, 0, 0, 0,
    26, 204, 133, 192, 0, 0, 0, 0, 27, 188, 146, 224, 0, 0, 0, 0, 28, 172, 131, 224, 0, 0, 0, 0,
    29, 156, 116, 224, 0, 0, 0, 0, 30, 140, 101, 224, 0, 0, 0, 0, 31, 124, 86, 224, 0, 0, 0, 0,
    32, 108, 71, 224, 0, 0, 0, 0, 33, 92, 56, 224, 0, 0, 0, 0, 34, 76, 41, 224, 0, 0, 0, 0, 35,
    60, 26, 224, 0, 0, 0, 0, 36, 44, 11, 224, 0, 0, 0, 0, 37, 28, 10, 240, 0, 0, 0, 0, 38, 11,
    251, 240, 0, 0, 0, 0, 39, 5, 39, 112, 0, 0, 0, 0, 39, 245, 24, 112, 0, 0, 0, 0, 40, 229, 23,
    128, 0, 0, 0, 0, 41, 0, 199, 0, 0, 0, 0, 0, 41, 212, 236, 96, 0, 0, 0, 0, 42, 196, 221, 96, 0,
    0, 0, 0, 43, 180, 206, 96, 0, 0, 0, 0, 44, 164, 191, 96, 0, 0, 0, 0, 45, 148, 176, 96, 0, 0,
    0, 0, 46, 132, 161, 96, 0, 0, 0, 0, 47, 116, 146, 96, 0, 0, 0, 0, 48, 100, 131, 96, 0, 0, 0,
    0, 49, 93, 174, 224, 0, 0, 0, 0, 50, 114, 137, 224, 0, 0, 0, 0, 51, 61, 144, 224, 0, 0, 0, 0,
    52, 82, 107, 224, 0, 0, 0, 0, 53, 29, 114, 224, 0, 0, 0, 0, 54, 50, 77, 224, 0, 0, 0, 0, 54,
    253, 84, 224, 0, 0, 0, 0, 56, 27, 106, 96, 0, 0, 0, 0, 56, 221, 54, 224, 0, 0, 0, 0, 57, 251,
    76, 96, 0, 0, 0, 0, 58, 189, 24, 224, 0, 0, 0, 0, 59, 219, 46, 96, 0, 0, 0, 0, 60, 166, 53,
    96, 0, 0, 0, 0, 61, 187, 16, 96, 0, 0, 0, 0, 62, 134, 23, 96, 0, 0, 0, 0, 63, 154, 242, 96, 0,
    0, 0, 0, 64, 101, 249, 96, 0, 0, 0, 0, 65, 132, 14, 224, 0, 0, 0, 0, 66, 69, 219, 96, 0, 0, 0,
    0, 67, 99, 240, 224, 0, 0, 0, 0, 68, 37, 189, 96, 0, 0, 0, 0, 69, 67, 210, 224, 0, 0, 0, 0,
    70, 5, 159, 96, 0, 0, 0, 0, 71, 35, 180, 224, 0, 0, 0, 0, 71, 238, 187, 224, 0, 0, 0, 0, 73,
    3, 150, 224, 0, 0, 0, 0, 73, 206, 157, 224, 0, 0, 0, 0, 74, 227, 120, 224, 0, 0, 0, 0, 75,
    174, 127, 224, 0, 0, 0, 0, 76, 204, 163, 112, 0, 0, 0, 0, 77, 142, 111, 240, 1, 2, 3, 2, 3, 2,
    3, 2, 3, 2, 3, 2, 3, 2, 3, 2, 3, 2, 4, 1, 4, 1, 5, 1, 2, 3, 2, 3, 2, 3, 2, 3, 2, 3, 2, 3, 2,
    3, 2, 3, 2, 3, 2, 3, 2, 3, 2, 3, 2, 3, 2, 3, 2, 3, 2, 3, 2, 3, 2, 3, 2, 4, 1, 2, 0, 0, 46,
    244, 0, 0, 0, 0, 42, 48, 0, 4, 0, 0, 56, 64, 0, 8, 0, 0, 70, 80, 1, 12, 0, 0, 56, 64, 1, 8, 0,
    0, 42, 48, 1, 4, 76, 77, 84, 0, 43, 48, 51, 0, 43, 48, 52, 0, 43, 48, 53, 0, 10, 60, 43, 48,
    52, 62, 45, 52, 10,
];

/// `Europe/Saratov`.
#[verifier::opaque]
pub const EUROPE_SARATOV: [u8; 726] = [
    84, 90, 105, 102, 50, 0, 0, 0, 0, 0, 0, 0, 0, 0, 0, 0, 0, 0, 0, 0, 0, 0, 0, 0, 0, 0, 0, 0, 0,
    0, 0, 0, 0, 0, 0, 0, 0, 0, 0, 1, 0, 0, 0, 1, 0, 0, 0, 0, 0, 0, 0, 84, 90, 105, 102, 50, 0, 0,
    0, 0, 0, 0, 0, 0, 0, 0, 0, 0, 0, 0, 0, 0, 0, 0, 0, 0, 0, 0, 0, 0, 0, 0, 0, 0, 0, 0, 64, 0, 0,
    0, 5, 0, 0, 0, 16, 255, 255, 255, 255, 161, 0, 57, 128, 255, 255, 255, 255, 181, 164, 11, 80,
    0, 0, 0, 0, 21, 39, 153, 192, 0, 0, 0, 0, 22, 24, 206, 48, 0, 0, 0, 0, 23, 8, 205, 64, 0, 0,
    0, 0, 23, 250, 1, 176, 0, 0, 0, 0, 24, 234, 0, 192, 0, 0, 0, 0, 25, 219, 53, 48, 0, 0, 0, 0,
    26, 204, 133, 192, 0, 0, 0, 0, 27, 188, 146, 224, 0, 0, 0, 0, 28, 172, 131, 224, 0, 0, 0, 0,
    29, 156, 116, 224, 0, 0, 0, 0, 30, 140, 101, 224, 0, 0, 0, 0, 31, 124, 86, 224, 0, 0, 0, 0,
    32, 108, 71, 224, 0, 0, 0, 0, 33, 92, 56, 224, 0, 0, 0, 0, 34, 76, 41, 224, 0, 0, 0, 0, 35,
    60, 40, 240, 0, 0, 0, 0, 36, 44, 25, 240, 0, 0, 0, 0, 37, 28, 10, 240, 0, 0, 0, 0, 38, 11,
    251, 240, 0, 0, 0, 0, 39, 5, 39, 112, 0, 0, 0, 0, 39, 245, 24, 112, 0, 0, 0, 0, 41, 212, 236,
    96, 0, 0, 0, 0, 42, 196, 235, 112, 0, 0, 0, 0, 43, 180, 220, 112, 0, 0, 0, 0, 44, 164, 205,
    112, 0, 0, 0, 0, 45, 148, 190, 112, 0, 0, 0, 0, 46, 132, 175, 112, 0, 0, 0, 0, 47, 116, 160,
    112, 0, 0, 0, 0, 48, 100, 145, 112, 0, 0, 0, 0, 49, 93, 188, 240, 0, 0, 0, 0, 50, 114, 151,
    240, 0, 0, 0, 0, 51, 61, 158, 240, 0, 0, 0, 0, 52, 82, 121, 240, 0, 0, 0, 0, 53, 29, 128, 240,
    0, 0, 0, 0, 54, 50, 91, 240, 0, 0, 0, 0, 54, 253, 98, 240, 0, 0, 0, 0, 56, 27, 120, 112, 0, 0,
    0, 0, 56, 221, 68, 240, 0, 0, 0, 0, 57, 251, 90, 112, 0, 0, 0, 0, 58, 189, 38, 240, 0, 0, 0,
    0, 59, 219, 60, 112, 0, 0, 0, 0, 60, 166, 67, 112, 0, 0, 0, 0, 61, 187, 30, 112, 0, 0, 0, 0,
    62, 134, 37, 112, 0, 0, 0, 0, 63, 155, 0, 112, 0, 0, 0, 0, 64, 102, 7, 112, 0, 0, 0, 0, 65,
    132, 28, 240, 0, 0, 0, 0, 66, 69, 233, 112, 0, 0, 0, 0, 67, 99, 254, 240, 0, 0, 0, 0, 68, 37,
    203, 112, 0, 0, 0, 0, 69, 67, 224, 240, 0, 0, 0, 0, 70, 5, 173, 112, 0, 0, 0, 0, 71, 35, 194,
    240, 0, 0, 0, 0, 71, 238, 201, 240, 0, 0, 0, 0, 73, 3, 164, 240, 0, 0, 0, 0, 73, 206, 171,
    240, 0, 0, 0, 0, 74, 227, 134, 240, 0, 0, 0, 0, 75, 174, 141, 240, 0, 0, 0, 0, 76, 204, 163,
    112, 0, 0, 0, 0, 77, 142, 111, 240, 0, 0, 0, 0, 84, 76, 29, 96, 0, 0, 0, 0, 88, 67, 78, 112,
    1, 3, 2, 3, 2, 3, 2, 3, 2, 3, 2, 3, 2, 3, 2, 3, 4, 1, 4, 1, 4, 1, 3, 4, 1, 4, 1, 4, 1, 4, 1,
    4, 1, 4, 1, 4, 1, 4, 1, 4, 1, 4, 1, 4, 1, 4, 1, 4, 1, 4, 1, 4, 1, 4, 1, 4, 1, 4, 1, 4, 1, 3,
    1, 3, 0, 0, 43, 50, 0, 0, 0, 0, 42, 48, 0, 4, 0, 0, 70, 80, 1, 8, 0, 0, 56, 64, 0, 12, 0, 0,
    56, 64, 1, 12, 76, 77, 84, 0, 43, 48, 51, 0, 43, 48, 53, 0, 43, 48, 52, 0, 10, 60, 43, 48, 52,
    62, 45, 52, 10,
];

/// `Europe/Simferopol`.
#[verifier::opaque]
pub const EUROPE_SIMFEROPOL: [u8; 865] = [
    84, 90, 105, 102, 50, 0, 0, 0, 0, 0, 0, 0, 0, 0, 0, 0, 0, 0, 0, 0, 0, 0, 0, 0, 0, 0, 0, 0, 0,
    0, 0, 0, 0, 0, 0, 0, 0, 0, 0, 1, 0, 0, 0, 1, 0, 0, 0, 0, 0, 0, 0, 84, 90, 105, 102, 50, 0, 0,
    0, 0, 0, 0, 0, 0, 0, 0, 0, 0, 0, 0, 0, 0, 0, 0, 0, 0, 0, 0, 0, 0, 0, 0, 0, 0, 0, 0, 75, 0, 0,
    0, 9, 0, 0, 0, 34, 255, 255, 255, 255, 86, 182, 196, 8, 255, 255, 255, 255, 170, 25, 164, 32,
    255, 255, 255, 255, 181, 164, 25, 96, 255, 255, 255, 255, 203, 4, 141, 208, 255, 255, 255,
    255, 204, 231, 75, 16, 255, 255, 255, 255, 205, 169, 23, 144, 255, 255, 255, 255, 206, 162,
    67, 16, 255, 255, 255, 255, 207, 146, 52, 16, 255, 255, 255, 255, 207, 159, 56, 224, 0, 0, 0,
    0, 21, 39, 167, 208, 0, 0, 0, 0, 22, 24, 220, 64, 0, 0, 0, 0, 23, 8, 219, 80, 0, 0, 0, 0, 23,
    250, 15, 192, 0, 0, 0, 0, 24, 234, 14, 208, 0, 0, 0, 0, 25, 219, 67, 64, 0, 0, 0, 0, 26, 204,
    147, 208, 0, 0, 0, 0, 27, 188, 160, 240, 0, 0, 0, 0, 28, 172, 145, 240, 0, 0, 0, 0, 29, 156,
    130, 240, 0, 0, 0, 0, 30, 140, 115, 240, 0, 0, 0, 0, 31, 124, 100, 240, 0, 0, 0, 0, 32, 108,
    85, 240, 0, 0, 0, 0, 33, 92, 70, 240, 0, 0, 0, 0, 34, 76, 55, 240, 0, 0, 0, 0, 35, 60, 40,
    240, 0, 0, 0, 0, 36, 44, 25, 240, 0, 0, 0, 0, 37, 28, 10, 240, 0, 0, 0, 0, 38, 141, 46, 240,
    0, 0, 0, 0, 41, 213, 8, 128, 0, 0, 0, 0, 42, 196, 249, 128, 0, 0, 0, 0, 43, 180, 234, 128, 0,
    0, 0, 0, 44, 164, 219, 128, 0, 0, 0, 0, 45, 148, 204, 128, 0, 0, 0, 0, 45, 194, 198, 208, 0,
    0, 0, 0, 46, 132, 175, 112, 0, 0, 0, 0, 47, 116, 160, 112, 0, 0, 0, 0, 48, 100, 145, 112, 0,
    0, 0, 0, 49, 93, 160, 208, 0, 0, 0, 0, 50, 114, 166, 0, 0, 0, 0, 0, 51, 61, 187, 16, 0, 0, 0,
    0, 52, 82, 150, 16, 0, 0, 0, 0, 53, 29, 157, 16, 0, 0, 0, 0, 54, 50, 120, 16, 0, 0, 0, 0, 54,
    253, 127, 16, 0, 0, 0, 0, 56, 27, 148, 144, 0, 0, 0, 0, 56, 221, 97, 16, 0, 0, 0, 0, 57, 251,
    118, 144, 0, 0, 0, 0, 58, 189, 67, 16, 0, 0, 0, 0, 59, 219, 88, 144, 0, 0, 0, 0, 60, 166, 95,
    144, 0, 0, 0, 0, 61, 187, 58, 144, 0, 0, 0, 0, 62, 134, 65, 144, 0, 0, 0, 0, 63, 155, 28, 144,
    0, 0, 0, 0, 64, 102, 35, 144, 0, 0, 0, 0, 65, 132, 57, 16, 0, 0, 0, 0, 66, 70, 5, 144, 0, 0,
    0, 0, 67, 100, 27, 16, 0, 0, 0, 0, 68, 37, 231, 144, 0, 0, 0, 0, 69, 67, 253, 16, 0, 0, 0, 0,
    70, 5, 201, 144, 0, 0, 0, 0, 71, 35, 223, 16, 0, 0, 0, 0, 71, 238, 230, 16, 0, 0, 0, 0, 73, 3,
    193, 16, 0, 0, 0, 0, 73, 206, 200, 16, 0, 0, 0, 0, 74, 227, 163, 16, 0, 0, 0, 0, 75, 174, 170,
    16, 0, 0, 0, 0, 76, 204, 191, 144, 0, 0, 0, 0, 77, 142, 140, 16, 0, 0, 0, 0, 78, 172, 161,
    144, 0, 0, 0, 0, 79, 110, 110, 16, 0, 0, 0, 0, 80, 140, 131, 144, 0, 0, 0, 0, 81, 87, 138,
    144, 0, 0, 0, 0, 82, 108, 101, 144, 0, 0, 0, 0, 83, 55, 94, 128, 0, 0, 0, 0, 84, 76, 29, 96,
    1, 2, 3, 5, 4, 5, 4, 5, 3, 6, 3, 6, 3, 6, 3, 6, 3, 6, 3, 6, 3, 6, 3, 6, 3, 6, 3, 2, 7, 2, 7,
    2, 7, 6, 3, 6, 3, 6, 3, 7, 2, 7, 2, 7, 2, 7, 2, 7, 2, 7, 2, 7, 2, 7, 2, 7, 2, 7, 2, 7, 2, 7,
    2, 7, 2, 7, 2, 7, 2, 7, 2, 7, 2, 8, 3, 0, 0, 31, 248, 0, 0, 0, 0, 31, 224, 0, 4, 0, 0, 28, 32,
    0, 8, 0, 0, 42, 48, 0, 12, 0, 0, 14, 16, 0, 16, 0, 0, 28, 32, 1, 20, 0, 0, 56, 64, 1, 25, 0,
    0, 42, 48, 1, 29, 0, 0, 56, 64, 0, 12, 76, 77, 84, 0, 83, 77, 84, 0, 69, 69, 84, 0, 77, 83,
    75, 0, 67, 69, 84, 0, 67, 69, 83, 84, 0, 77, 83, 68, 0, 69, 69, 83, 84, 0, 10, 77, 83, 75, 45,
    51, 10,
];

/// `Europe/Sofia`.
#[verifier::opaque]
pub const EUROPE_SOFIA: [u8; 592] = [
    84, 90, 105, 102, 50, 0, 0, 0, 0, 0, 0, 0, 0, 0, 0, 0, 0, 0, 0, 0, 0, 0, 0, 0, 0, 0, 0, 0, 0,
    0, 0, 0, 0, 0, 0, 0, 0, 0, 0, 1, 0, 0, 0, 1, 0, 0, 0, 0, 0, 0, 0, 84, 90, 105, 102, 50, 0, 0,
    0, 0, 0, 0, 0, 0, 0, 0, 0, 0, 0, 0, 0, 0, 0, 0, 0, 0, 0, 0, 0, 0, 0, 0, 0, 0, 0, 0, 45, 0, 0,
    0, 6, 0, 0, 0, 26, 255, 255, 255, 255, 86, 182, 206, 36, 255, 255, 255, 255, 114, 195, 227,
    24, 255, 255, 255, 255, 204, 231, 75, 16, 255, 255, 255, 255, 205, 169, 23, 144, 255, 255,
    255, 255, 206, 162, 67, 16, 255, 255, 255, 255, 207, 146, 52, 16, 255, 255, 255, 255, 208,
    130, 37, 16, 255, 255, 255, 255, 209, 114, 36, 32, 0, 0, 0, 0, 17, 99, 239, 80, 0, 0, 0, 0,
    18, 85, 63, 224, 0, 0, 0, 0, 19, 77, 11, 208, 0, 0, 0, 0, 20, 53, 33, 224, 0, 0, 0, 0, 21, 44,
    237, 208, 0, 0, 0, 0, 22, 19, 192, 112, 0, 0, 0, 0, 23, 12, 207, 208, 0, 0, 0, 0, 23, 243,
    176, 128, 0, 0, 0, 0, 24, 227, 161, 128, 0, 0, 0, 0, 25, 211, 146, 128, 0, 0, 0, 0, 26, 195,
    131, 128, 0, 0, 0, 0, 27, 188, 175, 0, 0, 0, 0, 0, 28, 172, 160, 0, 0, 0, 0, 0, 29, 156, 145,
    0, 0, 0, 0, 0, 30, 140, 130, 0, 0, 0, 0, 0, 31, 124, 115, 0, 0, 0, 0, 0, 32, 108, 100, 0, 0,
    0, 0, 0, 33, 92, 85, 0, 0, 0, 0, 0, 34, 76, 70, 0, 0, 0, 0, 0, 35, 60, 55, 0, 0, 0, 0, 0, 36,
    44, 40, 0, 0, 0, 0, 0, 37, 28, 25, 0, 0, 0, 0, 0, 38, 12, 10, 0, 0, 0, 0, 0, 39, 5, 53, 128,
    0, 0, 0, 0, 39, 245, 10, 96, 0, 0, 0, 0, 40, 228, 237, 80, 0, 0, 0, 0, 41, 212, 236, 96, 0, 0,
    0, 0, 42, 196, 207, 80, 0, 0, 0, 0, 43, 180, 206, 96, 0, 0, 0, 0, 44, 164, 177, 80, 0, 0, 0,
    0, 45, 148, 176, 96, 0, 0, 0, 0, 46, 132, 147, 80, 0, 0, 0, 0, 47, 116, 146, 96, 0, 0, 0, 0,
    48, 100, 117, 80, 0, 0, 0, 0, 49, 93, 174, 224, 0, 0, 0, 0, 50, 114, 123, 208, 0, 0, 0, 0, 50,
    201, 140, 224, 1, 2, 3, 4, 3, 4, 3, 2, 5, 2, 5, 2, 5, 2, 5, 2, 5, 2, 5, 2, 5, 2, 5, 2, 5, 2,
    5, 2, 5, 2, 5, 2, 5, 2, 5, 2, 5, 2, 5, 2, 5, 2, 5, 2, 2, 0, 0, 21, 220, 0, 0, 0, 0, 27, 104,
    0, 4, 0, 0, 28, 32, 0, 8, 0, 0, 14, 16, 0, 12, 0, 0, 28, 32, 1, 16, 0, 0, 42, 48, 1, 21, 76,
    77, 84, 0, 73, 77, 84, 0, 69, 69, 84, 0, 67, 69, 84, 0, 67, 69, 83, 84, 0, 69, 69, 83, 84, 0,
    10, 69, 69, 84, 45, 50, 69, 69, 83, 84, 44, 77, 51, 46, 53, 46, 48, 47, 51, 44, 77, 49, 48,
    46, 53, 46, 48, 47, 52, 10,
];

/// `Europe/Tallinn`.
#[verifier::opaque]
pub const EUROPE_TALLINN: [u8; 675] = [
    84, 90, 105, 102, 50, 0, 0, 0, 0, 0, 0, 0, 0, 0, 0, 0, 0, 0, 0, 0, 0, 0, 0, 0, 0, 0, 0, 0, 0,
    0, 0, 0, 0, 0, 0, 0, 0, 0, 0, 1, 0, 0, 0, 1, 0, 0, 0, 0, 0, 0, 0, 84, 90, 105, 102, 50, 0, 0,
    0, 0, 0, 0, 0, 0, 0, 0, 0, 0, 0, 0, 0, 0, 0, 0, 0, 0, 0, 0, 0, 0, 0, 0, 0, 0, 0, 0, 52, 0, 0,
    0, 8, 0, 0, 0, 34, 255, 255, 255, 255, 86, 182, 204, 204, 255, 255, 255, 255, 158, 89, 45,
    204, 255, 255, 255, 255, 158, 185, 144, 144, 255, 255, 255, 255, 159, 132, 151, 144, 255, 255,
    255, 255, 161, 0, 43, 112, 255, 255, 255, 255, 164, 115, 111, 76, 255, 255, 255, 255, 200,
    176, 181, 224, 255, 255, 255, 255, 202, 198, 151, 80, 255, 255, 255, 255, 204, 231, 75, 16,
    255, 255, 255, 255, 205, 169, 23, 144, 255, 255, 255, 255, 206, 162, 67, 16, 255, 255, 255,
    255, 207, 146, 52, 16, 255, 255, 255, 255, 208, 116, 203, 224, 0, 0, 0, 0, 21, 39, 167, 208,
    0, 0, 0, 0, 22, 24, 220, 64, 0, 0, 0, 0, 23, 8, 219, 80, 0, 0, 0, 0, 23, 250, 15, 192, 0, 0,
    0, 0, 24, 234, 14, 208, 0, 0, 0, 0, 25, 219, 67, 64, 0, 0, 0, 0, 26, 204, 147, 208, 0, 0, 0,
    0, 27, 188, 160, 240, 0, 0, 0, 0, 28, 172, 145, 240, 0, 0, 0, 0, 29, 156, 130, 240, 0, 0, 0,
    0, 30, 140, 115, 240, 0, 0, 0, 0, 31, 124, 100, 240, 0, 0, 0, 0, 32, 108, 85, 240, 0, 0, 0, 0,
    33, 92, 70, 240, 0, 0, 0, 0, 34, 76, 55, 240, 0, 0, 0, 0, 35, 60, 40, 240, 0, 0, 0, 0, 36, 44,
    25, 240, 0, 0, 0, 0, 37, 28, 25, 0, 0, 0, 0, 0, 38, 12, 10, 0, 0, 0, 0, 0, 39, 5, 53, 128, 0,
    0, 0, 0, 39, 245, 38, 128, 0, 0, 0, 0, 40, 229, 23, 128, 0, 0, 0, 0, 41, 213, 8, 128, 0, 0, 0,
    0, 42, 196, 249, 128, 0, 0, 0, 0, 43, 180, 234, 128, 0, 0, 0, 0, 44, 164, 219, 128, 0, 0, 0,
    0, 45, 148, 204, 128, 0, 0, 0, 0, 46, 132, 189, 128, 0, 0, 0, 0, 47, 116, 174, 128, 0, 0, 0,
    0, 48, 100, 159, 128, 0, 0, 0, 0, 49, 93, 203, 0, 0, 0, 0, 0, 50, 114, 166, 0, 0, 0, 0, 0, 51,
    61, 173, 0, 0, 0, 0, 0, 52, 82, 136, 0, 0, 0, 0, 0, 53, 29, 143, 0, 0, 0, 0, 0, 54, 50, 120,
    16, 0, 0, 0, 0, 54, 253, 127, 16, 0, 0, 0, 0, 56, 27, 148, 144, 0, 0, 0, 0, 60, 116, 28, 96,
    1, 3, 2, 3, 1, 4, 5, 2, 3, 2, 3, 2, 5, 6, 5, 6, 5, 6, 5, 6, 5, 6, 5, 6, 5, 6, 5, 6, 5, 7, 4,
    7, 4, 7, 4, 7, 4, 7, 4, 7, 4, 7, 4, 7, 4, 7, 4, 7, 4, 7, 4, 4, 0, 0, 23, 52, 0, 0, 0, 0, 23,
    52, 0, 4, 0, 0, 28, 32, 1, 8, 0, 0, 14, 16, 0, 13, 0, 0, 28, 32, 0, 17, 0, 0, 42, 48, 0, 21,
    0, 0, 56, 64, 1, 25, 0, 0, 42, 48, 1, 29, 76, 77, 84, 0, 84, 77, 84, 0, 67, 69, 83, 84, 0, 67,
    69, 84, 0, 69, 69, 84, 0, 77, 83, 75, 0, 77, 83, 68, 0, 69, 69, 83, 84, 0, 10, 69, 69, 84, 45,
    50, 69, 69, 83, 84, 44, 77, 51, 46, 53, 46, 48, 47, 51, 44, 77, 49, 48, 46, 53, 46, 48, 47,
    52, 10,
];

/// `Europe/Tirane`.
#[verifier::opaque]
pub const EUROPE_TIRANE: [u8; 604] = [
    84, 90, 105, 102, 50, 0, 0, 0, 0, 0, 0, 0, 0, 0, 0, 0, 0, 0, 0, 0, 0, 0, 0, 0, 0, 0, 0, 0, 0,
    0, 0, 0, 0, 0, 0, 0, 0, 0, 0, 1, 0, 0, 0, 1, 0, 0, 0, 0, 0, 0, 0, 84, 90, 105, 102, 50, 0, 0,
    0, 0, 0, 0, 0, 0, 0, 0, 0, 0, 0, 0, 0, 0, 0, 0, 0, 0, 0, 0, 0, 0, 0, 0, 0, 0, 0, 0, 50, 0, 0,
    0, 3, 0, 0, 0, 13, 255, 255, 255, 255, 150, 170, 52, 104, 255, 255, 255, 255, 200, 109, 135,
    112, 255, 255, 255, 255, 204, 231, 75, 16, 255, 255, 255, 255, 205, 169, 23, 144, 255, 255,
    255, 255, 205, 184, 233, 144, 0, 0, 0, 0, 8, 40, 57, 240, 0, 0, 0, 0, 8, 239, 62, 96, 0, 0, 0,
    0, 10, 5, 120, 240, 0, 0, 0, 0, 10, 208, 113, 224, 0, 0, 0, 0, 11, 233, 79, 112, 0, 0, 0, 0,
    12, 180, 72, 96, 0, 0, 0, 0, 13, 210, 107, 240, 0, 0, 0, 0, 14, 148, 42, 96, 0, 0, 0, 0, 15,
    176, 252, 112, 0, 0, 0, 0, 16, 116, 12, 96, 0, 0, 0, 0, 17, 144, 222, 112, 0, 0, 0, 0, 18, 83,
    238, 96, 0, 0, 0, 0, 19, 112, 192, 112, 0, 0, 0, 0, 20, 59, 185, 96, 0, 0, 0, 0, 21, 72, 185,
    112, 0, 0, 0, 0, 22, 19, 178, 96, 0, 0, 0, 0, 23, 49, 213, 240, 0, 0, 0, 0, 23, 252, 206, 224,
    0, 0, 0, 0, 25, 0, 148, 112, 0, 0, 0, 0, 25, 219, 95, 96, 0, 0, 0, 0, 26, 204, 175, 240, 0, 0,
    0, 0, 27, 188, 189, 16, 0, 0, 0, 0, 28, 172, 174, 16, 0, 0, 0, 0, 29, 156, 159, 16, 0, 0, 0,
    0, 30, 140, 144, 16, 0, 0, 0, 0, 31, 124, 129, 16, 0, 0, 0, 0, 32, 108, 114, 16, 0, 0, 0, 0,
    33, 92, 99, 16, 0, 0, 0, 0, 34, 76, 84, 16, 0, 0, 0, 0, 35, 60, 69, 16, 0, 0, 0, 0, 36, 44,
    54, 16, 0, 0, 0, 0, 37, 28, 39, 16, 0, 0, 0, 0, 38, 12, 24, 16, 0, 0, 0, 0, 39, 5, 67, 144, 0,
    0, 0, 0, 39, 245, 52, 144, 0, 0, 0, 0, 40, 229, 37, 144, 0, 0, 0, 0, 41, 213, 22, 144, 0, 0,
    0, 0, 42, 197, 7, 144, 0, 0, 0, 0, 43, 180, 248, 144, 0, 0, 0, 0, 44, 164, 233, 144, 0, 0, 0,
    0, 45, 148, 218, 144, 0, 0, 0, 0, 46, 132, 203, 144, 0, 0, 0, 0, 47, 116, 188, 144, 0, 0, 0,
    0, 48, 100, 173, 144, 0, 0, 0, 0, 49, 93, 217, 16, 1, 2, 1, 2, 1, 2, 1, 2, 1, 2, 1, 2, 1, 2,
    1, 2, 1, 2, 1, 2, 1, 2, 1, 2, 1, 2, 1, 2, 1, 2, 1, 2, 1, 2, 1, 2, 1, 2, 1, 2, 1, 2, 1, 2, 1,
    2, 1, 2, 1, 2, 0, 0, 18, 152, 0, 0, 0, 0, 14, 16, 0, 4, 0, 0, 28, 32, 1, 8, 76, 77, 84, 0, 67,
    69, 84, 0, 67, 69, 83, 84, 0, 10, 67, 69, 84, 45, 49, 67, 69, 83, 84, 44, 77, 51, 46, 53, 46,
    48, 44, 77, 49, 48, 46, 53, 46, 48, 47, 51, 10,
];

/// `Europe/Ulyanovsk`.
#[verifier::opaque]
pub const EUROPE_ULYANOVSK: [u8; 760] = [
    84, 90, 105, 102, 50, 0, 0, 0, 0, 0, 0, 0, 0, 0, 0, 0, 0, 0, 0, 0, 0, 0, 0, 0, 0, 0, 0, 0, 0,
    0, 0, 0, 0, 0, 0, 0, 0, 0, 0, 1, 0, 0, 0, 1, 0, 0, 0, 0, 0, 0, 0, 84, 90, 105, 102, 50, 0, 0,
    0, 0, 0, 0, 0, 0, 0, 0, 0, 0, 0, 0, 0, 0, 0, 0, 0, 0, 0, 0, 0, 0, 0, 0, 0, 0, 0, 0, 66, 0, 0,
    0, 7, 0, 0, 0, 20, 255, 255, 255, 255, 161, 0, 57, 128, 255, 255, 255, 255, 181, 164, 11, 80,
    0, 0, 0, 0, 21, 39, 153, 192, 0, 0, 0, 0, 22, 24, 206, 48, 0, 0, 0, 0, 23, 8, 205, 64, 0, 0,
    0, 0, 23, 250, 1, 176, 0, 0, 0, 0, 24, 234, 0, 192, 0, 0, 0, 0, 25, 219, 53, 48, 0, 0, 0, 0,
    26, 204, 133, 192, 0, 0, 0, 0, 27, 188, 146, 224, 0, 0, 0, 0, 28, 172, 131, 224, 0, 0, 0, 0,
    29, 156, 116, 224, 0, 0, 0, 0, 30, 140, 101, 224, 0, 0, 0, 0, 31, 124, 86, 224, 0, 0, 0, 0,
    32, 108, 71, 224, 0, 0, 0, 0, 33, 92, 56, 224, 0, 0, 0, 0, 34, 76, 41, 224, 0, 0, 0, 0, 35,
    60, 26, 224, 0, 0, 0, 0, 36, 44, 11, 224, 0, 0, 0, 0, 37, 28, 10, 240, 0, 0, 0, 0, 38, 11,
    251, 240, 0, 0, 0, 0, 39, 5, 39, 112, 0, 0, 0, 0, 39, 245, 24, 112, 0, 0, 0, 0, 40, 229, 23,
    128, 0, 0, 0, 0, 41, 120, 191, 128, 0, 0, 0, 0, 41, 212, 250, 112, 0, 0, 0, 0, 42, 196, 235,
    112, 0, 0, 0, 0, 43, 180, 220, 112, 0, 0, 0, 0, 44, 164, 205, 112, 0, 0, 0, 0, 45, 148, 190,
    112, 0, 0, 0, 0, 46, 132, 175, 112, 0, 0, 0, 0, 47, 116, 160, 112, 0, 0, 0, 0, 48, 100, 145,
    112, 0, 0, 0, 0, 49, 93, 188, 240, 0, 0, 0, 0, 50, 114, 151, 240, 0, 0, 0, 0, 51, 61, 158,
    240, 0, 0, 0, 0, 52, 82, 121, 240, 0, 0, 0, 0, 53, 29, 128, 240, 0, 0, 0, 0, 54, 50, 91, 240,
    0, 0, 0, 0, 54, 253, 98, 240, 0, 0, 0, 0, 56, 27, 120, 112, 0, 0, 0, 0, 56, 221, 68, 240, 0,
    0, 0, 0, 57, 251, 90, 112, 0, 0, 0, 0, 58, 189, 38, 240, 0, 0, 0, 0, 59, 219, 60, 112, 0, 0,
    0, 0, 60, 166, 67, 112, 0, 0, 0, 0, 61, 187, 30, 112, 0, 0, 0, 0, 62, 134, 37, 112, 0, 0, 0,
    0, 63, 155, 0, 112, 0, 0, 0, 0, 64, 102, 7, 112, 0, 0, 0, 0, 65, 132, 28, 240, 0, 0, 0, 0, 66,
    69, 233, 112, 0, 0, 0, 0, 67, 99, 254, 240, 0, 0, 0, 0, 68, 37, 203, 112, 0, 0, 0, 0, 69, 67,
    224, 240, 0, 0, 0, 0, 70, 5, 173, 112, 0, 0, 0, 0, 71, 35, 194, 240, 0, 0, 0, 0, 71, 238, 201,
    240, 0, 0, 0, 0, 73, 3, 164, 240, 0, 0, 0, 0, 73, 206, 171, 240, 0, 0, 0, 0, 74, 227, 134,
    240, 0, 0, 0, 0, 75, 174, 141, 240, 0, 0, 0, 0, 76, 204, 163, 112, 0, 0, 0, 0, 77, 142, 111,
    240, 0, 0, 0, 0, 84, 76, 29, 96, 0, 0, 0, 0, 86, 247, 20, 112, 1, 3, 2, 3, 2, 3, 2, 3, 2, 3,
    2, 3, 2, 3, 2, 3, 2, 3, 4, 1, 4, 1, 5, 6, 1, 4, 1, 4, 1, 4, 1, 4, 1, 4, 1, 4, 1, 4, 1, 4, 1,
    4, 1, 4, 1, 4, 1, 4, 1, 4, 1, 4, 1, 4, 1, 4, 1, 4, 1, 4, 1, 4, 1, 3, 1, 3, 0, 0, 45, 96, 0, 0,
    0, 0, 42, 48, 0, 4, 0, 0, 70, 80, 1, 8, 0, 0, 56, 64, 0, 12, 0, 0, 56, 64, 1, 12, 0, 0, 42,
    48, 1, 4, 0, 0, 28, 32, 0, 16, 76, 77, 84, 0, 43, 48, 51, 0, 43, 48, 53, 0, 43, 48, 52, 0, 43,
    48, 50, 0, 10, 60, 43, 48, 52, 62, 45, 52, 10,
];

/// `Europe/Vienna`.
#[verifier::opaque]
pub const EUROPE_VIENNA: [u8; 658] = [
    84, 90, 105, 102, 50, 0, 0, 0, 0, 0, 0, 0, 0, 0, 0, 0, 0, 0, 0, 0, 0, 0, 0, 0, 0, 0, 0, 0, 0,
    0, 0, 0, 0, 0, 0, 0, 0, 0, 0, 1, 0, 0, 0, 1, 0, 0, 0, 0, 0, 0, 0, 84, 90, 105, 102, 50, 0, 0,
    0, 0, 0, 0, 0, 0, 0, 0, 0, 0, 0, 0, 0, 0, 0, 0, 0, 0, 0, 0, 0, 0, 0, 0, 0, 0, 0, 0, 56, 0, 0,
    0, 3, 0, 0, 0, 13, 255, 255, 255, 255, 111, 162, 95, 47, 255, 255, 255, 255, 155, 12, 23, 96,
    255, 255, 255, 255, 155, 213, 218, 240, 255, 255, 255, 255, 156, 217, 174, 144, 255, 255, 255,
    255, 157, 164, 181, 144, 255, 255, 255, 255, 158, 185, 144, 144, 255, 255, 255, 255, 159, 132,
    151, 144, 255, 255, 255, 255, 162, 112, 26, 16, 255, 255, 255, 255, 163, 68, 91, 144, 255,
    255, 255, 255, 200, 9, 113, 144, 255, 255, 255, 255, 204, 231, 75, 16, 255, 255, 255, 255,
    205, 169, 23, 144, 255, 255, 255, 255, 206, 162, 67, 16, 255, 255, 255, 255, 207, 146, 52, 16,
    255, 255, 255, 255, 208, 130, 37, 16, 255, 255, 255, 255, 209, 114, 22, 16, 255, 255, 255,
    255, 209, 127, 69, 16, 255, 255, 255, 255, 211, 99, 27, 144, 255, 255, 255, 255, 212, 75, 35,
    144, 255, 255, 255, 255, 213, 57, 195, 16, 255, 255, 255, 255, 214, 41, 180, 16, 255, 255,
    255, 255, 215, 44, 26, 16, 255, 255, 255, 255, 216, 9, 150, 16, 0, 0, 0, 0, 19, 77, 39, 240,
    0, 0, 0, 0, 20, 51, 208, 96, 0, 0, 0, 0, 21, 35, 235, 144, 0, 0, 0, 0, 22, 19, 220, 144, 0, 0,
    0, 0, 23, 3, 205, 144, 0, 0, 0, 0, 23, 243, 190, 144, 0, 0, 0, 0, 24, 227, 175, 144, 0, 0, 0,
    0, 25, 211, 160, 144, 0, 0, 0, 0, 26, 195, 145, 144, 0, 0, 0, 0, 27, 188, 189, 16, 0, 0, 0, 0,
    28, 172, 174, 16, 0, 0, 0, 0, 29, 156, 159, 16, 0, 0, 0, 0, 30, 140, 144, 16, 0, 0, 0, 0, 31,
    124, 129, 16, 0, 0, 0, 0, 32, 108, 114, 16, 0, 0, 0, 0, 33, 92, 99, 16, 0, 0, 0, 0, 34, 76,
    84, 16, 0, 0, 0, 0, 35, 60, 69, 16, 0, 0, 0, 0, 36, 44, 54, 16, 0, 0, 0, 0, 37, 28, 39, 16, 0,
    0, 0, 0, 38, 12, 24, 16, 0, 0, 0, 0, 39, 5, 67, 144, 0, 0, 0, 0, 39, 245, 52, 144, 0, 0, 0, 0,
    40, 229, 37, 144, 0, 0, 0, 0, 41, 213, 22, 144, 0, 0, 0, 0, 42, 197, 7, 144, 0, 0, 0, 0, 43,
    180, 248, 144, 0, 0, 0, 0, 44, 164, 233, 144, 0, 0, 0, 0, 45, 148, 218, 144, 0, 0, 0, 0, 46,
    132, 203, 144, 0, 0, 0, 0, 47, 116, 188, 144, 0, 0, 0, 0, 48, 100, 173, 144, 0, 0, 0, 0, 49,
    93, 217, 16, 2, 1, 2, 1, 2, 1, 2, 1, 2, 1, 2, 1, 2, 1, 2, 1, 2, 1, 2, 1, 2, 1, 2, 1, 2, 1, 2,
    1, 2, 1, 2, 1, 2, 1, 2, 1, 2, 1, 2, 1, 2, 1, 2, 1, 2, 1, 2, 1, 2, 1, 2, 1, 2, 1, 2, 1, 0, 0,
    15, 81, 0, 0, 0, 0, 28, 32, 1, 4, 0, 0, 14, 16, 0, 9, 76, 77, 84, 0, 67, 69, 83, 84, 0, 67,
    69, 84, 0, 10, 67, 69, 84, 45, 49, 67, 69, 83, 84, 44, 77, 51, 46, 53, 46, 48, 44, 77, 49, 48,
    46, 53, 46, 48, 47, 51, 10,
];

/// `Europe/Vilnius`.
#[verifier::opaque]
pub const EUROPE_VILNIUS: [u8; 676] = [
    84, 90, 105, 102, 50, 0, 0, 0, 0, 0, 0, 0, 0, 0, 0, 0, 0, 0, 0, 0, 0, 0, 0, 0, 0, 0, 0, 0, 0,
    0, 0, 0, 0, 0, 0, 0, 0, 0, 0, 1, 0, 0, 0, 1, 0, 0, 0, 0, 0, 0, 0, 84, 90, 105, 102, 50, 0, 0,
    0, 0, 0, 0, 0, 0, 0, 0, 0, 0, 0, 0, 0, 0, 0, 0, 0, 0, 0, 0, 0, 0, 0, 0, 0, 0, 0, 0, 51, 0, 0,
    0, 9, 0, 0, 0, 38, 255, 255, 255, 255, 86, 182, 204, 68, 255, 255, 255, 255, 156, 79, 31, 80,
    255, 255, 255, 255, 161, 133, 74, 152, 255, 255, 255, 255, 162, 241, 48, 240, 255, 255, 255,
    255, 163, 102, 120, 96, 255, 255, 255, 255, 200, 172, 207, 112, 255, 255, 255, 255, 202, 89,
    42, 208, 255, 255, 255, 255, 204, 231, 75, 16, 255, 255, 255, 255, 205, 169, 23, 144, 255,
    255, 255, 255, 206, 162, 67, 16, 255, 255, 255, 255, 207, 146, 52, 16, 255, 255, 255, 255,
    208, 48, 61, 224, 0, 0, 0, 0, 21, 39, 167, 208, 0, 0, 0, 0, 22, 24, 220, 64, 0, 0, 0, 0, 23,
    8, 219, 80, 0, 0, 0, 0, 23, 250, 15, 192, 0, 0, 0, 0, 24, 234, 14, 208, 0, 0, 0, 0, 25, 219,
    67, 64, 0, 0, 0, 0, 26, 204, 147, 208, 0, 0, 0, 0, 27, 188, 160, 240, 0, 0, 0, 0, 28, 172,
    145, 240, 0, 0, 0, 0, 29, 156, 130, 240, 0, 0, 0, 0, 30, 140, 115, 240, 0, 0, 0, 0, 31, 124,
    100, 240, 0, 0, 0, 0, 32, 108, 85, 240, 0, 0, 0, 0, 33, 92, 70, 240, 0, 0, 0, 0, 34, 76, 55,
    240, 0, 0, 0, 0, 35, 60, 40, 240, 0, 0, 0, 0, 36, 44, 25, 240, 0, 0, 0, 0, 37, 28, 25, 0, 0,
    0, 0, 0, 38, 12, 10, 0, 0, 0, 0, 0, 39, 5, 53, 128, 0, 0, 0, 0, 39, 245, 38, 128, 0, 0, 0, 0,
    40, 229, 23, 128, 0, 0, 0, 0, 41, 213, 8, 128, 0, 0, 0, 0, 42, 196, 249, 128, 0, 0, 0, 0, 43,
    180, 234, 128, 0, 0, 0, 0, 44, 164, 219, 128, 0, 0, 0, 0, 45, 148, 204, 128, 0, 0, 0, 0, 46,
    132, 189, 128, 0, 0, 0, 0, 47, 116, 174, 128, 0, 0, 0, 0, 48, 100, 159, 128, 0, 0, 0, 0, 49,
    93, 203, 0, 0, 0, 0, 0, 50, 114, 166, 0, 0, 0, 0, 0, 51, 61, 173, 0, 0, 0, 0, 0, 52, 82, 136,
    0, 0, 0, 0, 0, 53, 29, 157, 16, 0, 0, 0, 0, 54, 50, 120, 16, 0, 0, 0, 0, 54, 253, 127, 16, 0,
    0, 0, 0, 56, 27, 148, 144, 0, 0, 0, 0, 62, 18, 19, 96, 1, 2, 3, 4, 3, 5, 6, 3, 6, 3, 6, 5, 7,
    5, 7, 5, 7, 5, 7, 5, 7, 5, 7, 5, 7, 5, 7, 5, 8, 4, 8, 4, 8, 4, 8, 4, 8, 4, 8, 4, 8, 4, 8, 4,
    8, 4, 6, 3, 6, 4, 4, 0, 0, 23, 188, 0, 0, 0, 0, 19, 176, 0, 4, 0, 0, 22, 104, 0, 8, 0, 0, 14,
    16, 0, 12, 0, 0, 28, 32, 0, 16, 0, 0, 42, 48, 0, 20, 0, 0, 28, 32, 1, 24, 0, 0, 56, 64, 1, 29,
    0, 0, 42, 48, 1, 33, 76, 77, 84, 0, 87, 77, 84, 0, 75, 77, 84, 0, 67, 69, 84, 0, 69, 69, 84,
    0, 77, 83, 75, 0, 67, 69, 83, 84, 0, 77, 83, 68, 0, 69, 69, 83, 84, 0, 10, 69, 69, 84, 45, 50,
    69, 69, 83, 84, 44, 77, 51, 46, 53, 46, 48, 47, 51, 44, 77, 49, 48, 46, 53, 46, 48, 47, 52,
    10,
];

/// `Europe/Volgograd`.
#[verifier::opaque]
pub const EUROPE_VOLGOGRAD: [u8; 753] = [
    84, 90, 105, 102, 50, 0, 0, 0, 0, 0, 0, 0, 0, 0, 0, 0, 0, 0, 0, 0, 0, 0, 0, 0, 0, 0, 0, 0, 0,
    0, 0, 0, 0, 0, 0, 0, 0, 0, 0, 1, 0, 0, 0, 1, 0, 0, 0, 0, 0, 0, 0, 84, 90, 105, 102, 50, 0, 0,
    0, 0, 0, 0, 0, 0, 0, 0, 0, 0, 0, 0, 0, 0, 0, 0, 0, 0, 0, 0, 0, 0, 0, 0, 0, 0, 0, 0, 65, 0, 0,
    0, 7, 0, 0, 0, 24, 255, 255, 255, 255, 161, 245, 70, 220, 255, 255, 255, 255, 181, 164, 11,
    80, 0, 0, 0, 0, 21, 39, 153, 192, 0, 0, 0, 0, 22, 24, 206, 48, 0, 0, 0, 0, 23, 8, 205, 64, 0,
    0, 0, 0, 23, 250, 1, 176, 0, 0, 0, 0, 24, 234, 0, 192, 0, 0, 0, 0, 25, 219, 53, 48, 0, 0, 0,
    0, 26, 204, 133, 192, 0, 0, 0, 0, 27, 188, 146, 224, 0, 0, 0, 0, 28, 172, 131, 224, 0, 0, 0,
    0, 29, 156, 116, 224, 0, 0, 0, 0, 30, 140, 101, 224, 0, 0, 0, 0, 31, 124, 86, 224, 0, 0, 0, 0,
    32, 108, 71, 224, 0, 0, 0, 0, 33, 92, 56, 224, 0, 0, 0, 0, 34, 76, 41, 224, 0, 0, 0, 0, 35,
    60, 40, 240, 0, 0, 0, 0, 36, 44, 25, 240, 0, 0, 0, 0, 37, 28, 10, 240, 0, 0, 0, 0, 38, 11,
    251, 240, 0, 0, 0, 0, 39, 5, 39, 112, 0, 0, 0, 0, 39, 245, 24, 112, 0, 0, 0, 0, 41, 212, 236,
    96, 0, 0, 0, 0, 42, 196, 235, 112, 0, 0, 0, 0, 43, 180, 220, 112, 0, 0, 0, 0, 44, 164, 205,
    112, 0, 0, 0, 0, 45, 148, 190, 112, 0, 0, 0, 0, 46, 132, 175, 112, 0, 0, 0, 0, 47, 116, 160,
    112, 0, 0, 0, 0, 48, 100, 145, 112, 0, 0, 0, 0, 49, 93, 188, 240, 0, 0, 0, 0, 50, 114, 151,
    240, 0, 0, 0, 0, 51, 61, 158, 240, 0, 0, 0, 0, 52, 82, 121, 240, 0, 0, 0, 0, 53, 29, 128, 240,
    0, 0, 0, 0, 54, 50, 91, 240, 0, 0, 0, 0, 54, 253, 98, 240, 0, 0, 0, 0, 56, 27, 120, 112, 0, 0,
    0, 0, 56, 221, 68, 240, 0, 0, 0, 0, 57, 251, 90, 112, 0, 0, 0, 0, 58, 189, 38, 240, 0, 0, 0,
    0, 59, 219, 60, 112, 0, 0, 0, 0, 60, 166, 67, 112, 0, 0, 0, 0, 61, 187, 30, 112, 0, 0, 0, 0,
    62, 134, 37, 112, 0, 0, 0, 0, 63, 155, 0, 112, 0, 0, 0, 0, 64, 102, 7, 112, 0, 0, 0, 0, 65,
    132, 28, 240, 0, 0, 0, 0, 66, 69, 233, 112, 0, 0, 0, 0, 67, 99, 254, 240, 0, 0, 0, 0, 68, 37,
    203, 112, 0, 0, 0, 0, 69, 67, 224, 240, 0, 0, 0, 0, 70, 5, 173, 112, 0, 0, 0, 0, 71, 35, 194,
    240, 0, 0, 0, 0, 71, 238, 201, 240, 0, 0, 0, 0, 73, 3, 164, 240, 0, 0, 0, 0, 73, 206, 171,
    240, 0, 0, 0, 0, 74, 227, 134, 240, 0, 0, 0, 0, 75, 174, 141, 240, 0, 0, 0, 0, 76, 204, 163,
    112, 0, 0, 0, 0, 77, 142, 111, 240, 0, 0, 0, 0, 84, 76, 29, 96, 0, 0, 0, 0, 91, 212, 237, 240,
    0, 0, 0, 0, 95, 231, 178, 96, 1, 2, 3, 2, 3, 2, 3, 2, 3, 2, 3, 2, 3, 2, 3, 2, 4, 5, 4, 5, 4,
    5, 2, 4, 5, 4, 5, 4, 5, 4, 5, 4, 5, 4, 5, 4, 5, 4, 5, 4, 5, 4, 5, 4, 5, 4, 5, 4, 5, 4, 5, 4,
    5, 4, 5, 4, 5, 4, 5, 4, 5, 6, 5, 2, 5, 0, 0, 41, 164, 0, 0, 0, 0, 42, 48, 0, 4, 0, 0, 56, 64,
    0, 8, 0, 0, 70, 80, 1, 12, 0, 0, 56, 64, 1, 16, 0, 0, 42, 48, 0, 20, 0, 0, 56, 64, 0, 20, 76,
    77, 84, 0, 43, 48, 51, 0, 43, 48, 52, 0, 43, 48, 53, 0, 77, 83, 68, 0, 77, 83, 75, 0, 10, 77,
    83, 75, 45, 51, 10,
];

/// `Europe/Warsaw`.
#[verifier::opaque]
pub const EUROPE_WARSAW: [u8; 923] = [
    84, 90, 105, 102, 50, 0, 0, 0, 0, 0, 0, 0, 0, 0, 0, 0, 0, 0, 0, 0, 0, 0, 0, 0, 0, 0, 0, 0, 0,
    0, 0, 0, 0, 0, 0, 0, 0, 0, 0, 1, 0, 0, 0, 1, 0, 0, 0, 0, 0, 0, 0, 84, 90, 105, 102, 50, 0, 0,
    0, 0, 0, 0, 0, 0, 0, 0, 0, 0, 0, 0, 0, 0, 0, 0, 0, 0, 0, 0, 0, 0, 0, 0, 0, 0, 0, 0, 82, 0, 0,
    0, 6, 0, 0, 0, 26, 255, 255, 255, 255, 86, 182, 208, 80, 255, 255, 255, 255, 153, 168, 42,
    208, 255, 255, 255, 255, 155, 12, 23, 96, 255, 255, 255, 255, 155, 213, 218, 240, 255, 255,
    255, 255, 156, 217, 174, 144, 255, 255, 255, 255, 157, 164, 181, 144, 255, 255, 255, 255, 158,
    185, 144, 144, 255, 255, 255, 255, 159, 132, 151, 144, 255, 255, 255, 255, 160, 154, 182, 0,
    255, 255, 255, 255, 161, 101, 189, 0, 255, 255, 255, 255, 166, 125, 124, 96, 255, 255, 255,
    255, 200, 118, 222, 16, 255, 255, 255, 255, 204, 231, 75, 16, 255, 255, 255, 255, 205, 169,
    23, 144, 255, 255, 255, 255, 206, 162, 67, 16, 255, 255, 255, 255, 207, 146, 52, 16, 255, 255,
    255, 255, 208, 132, 186, 0, 255, 255, 255, 255, 209, 149, 146, 112, 255, 255, 255, 255, 210,
    138, 187, 96, 255, 255, 255, 255, 211, 98, 255, 112, 255, 255, 255, 255, 212, 75, 35, 144,
    255, 255, 255, 255, 213, 94, 173, 16, 255, 255, 255, 255, 214, 41, 180, 16, 255, 255, 255,
    255, 215, 44, 26, 16, 255, 255, 255, 255, 216, 9, 150, 16, 255, 255, 255, 255, 217, 2, 193,
    144, 255, 255, 255, 255, 217, 233, 120, 16, 255, 255, 255, 255, 232, 84, 210, 0, 255, 255,
    255, 255, 232, 241, 180, 128, 255, 255, 255, 255, 233, 225, 165, 128, 255, 255, 255, 255, 234,
    209, 150, 128, 255, 255, 255, 255, 236, 20, 150, 0, 255, 255, 255, 255, 236, 186, 179, 0, 255,
    255, 255, 255, 237, 170, 164, 0, 255, 255, 255, 255, 238, 154, 149, 0, 255, 255, 255, 255,
    239, 212, 90, 0, 255, 255, 255, 255, 240, 122, 119, 0, 255, 255, 255, 255, 241, 180, 60, 0,
    255, 255, 255, 255, 242, 90, 89, 0, 255, 255, 255, 255, 243, 148, 30, 0, 255, 255, 255, 255,
    244, 58, 59, 0, 255, 255, 255, 255, 245, 125, 58, 128, 255, 255, 255, 255, 246, 26, 29, 0, 0,
    0, 0, 0, 13, 164, 85, 128, 0, 0, 0, 0, 14, 139, 12, 0, 0, 0, 0, 0, 15, 132, 55, 128, 0, 0, 0,
    0, 16, 116, 40, 128, 0, 0, 0, 0, 17, 100, 25, 128, 0, 0, 0, 0, 18, 84, 10, 128, 0, 0, 0, 0,
    19, 77, 54, 0, 0, 0, 0, 0, 20, 51, 236, 128, 0, 0, 0, 0, 21, 35, 221, 128, 0, 0, 0, 0, 22, 19,
    206, 128, 0, 0, 0, 0, 23, 3, 191, 128, 0, 0, 0, 0, 23, 243, 176, 128, 0, 0, 0, 0, 24, 227,
    161, 128, 0, 0, 0, 0, 25, 211, 146, 128, 0, 0, 0, 0, 26, 195, 131, 128, 0, 0, 0, 0, 27, 188,
    175, 0, 0, 0, 0, 0, 28, 172, 160, 0, 0, 0, 0, 0, 29, 156, 145, 0, 0, 0, 0, 0, 30, 140, 130, 0,
    0, 0, 0, 0, 31, 124, 115, 0, 0, 0, 0, 0, 32, 108, 100, 0, 0, 0, 0, 0, 33, 92, 85, 0, 0, 0, 0,
    0, 34, 76, 84, 16, 0, 0, 0, 0, 35, 60, 69, 16, 0, 0, 0, 0, 36, 44, 54, 16, 0, 0, 0, 0, 37, 28,
    39, 16, 0, 0, 0, 0, 38, 12, 24, 16, 0, 0, 0, 0, 39, 5, 67, 144, 0, 0, 0, 0, 39, 245, 52, 144,
    0, 0, 0, 0, 40, 229, 37, 144, 0, 0, 0, 0, 41, 213, 22, 144, 0, 0, 0, 0, 42, 197, 7, 144, 0, 0,
    0, 0, 43, 180, 248, 144, 0, 0, 0, 0, 44, 164, 233, 144, 0, 0, 0, 0, 45, 148, 218, 144, 0, 0,
    0, 0, 46, 132, 203, 144, 0, 0, 0, 0, 47, 116, 188, 144, 0, 0, 0, 0, 48, 100, 173, 144, 0, 0,
    0, 0, 49, 93, 217, 16, 1, 3, 2, 3, 2, 3, 2, 5, 4, 5, 3, 2, 3, 2, 3, 2, 3, 2, 3, 2, 3, 2, 3, 2,
    3, 2, 3, 2, 3, 2, 3, 2, 3, 2, 3, 2, 3, 2, 3, 2, 3, 2, 3, 2, 3, 2, 3, 2, 3, 2, 3, 2, 3, 2, 3,
    2, 3, 2, 3, 2, 3, 2, 3, 2, 3, 2, 3, 2, 3, 2, 3, 2, 3, 2, 3, 2, 3, 2, 3, 2, 3, 2, 0, 0, 19,
    176, 0, 0, 0, 0, 19, 176, 0, 4, 0, 0, 28, 32, 1, 8, 0, 0, 14, 16, 0, 13, 0, 0, 42, 48, 1, 17,
    0, 0, 28, 32, 0, 22, 76, 77, 84, 0, 87, 77, 84, 0, 67, 69, 83, 84, 0, 67, 69, 84, 0, 69, 69,
    83, 84, 0, 69, 69, 84, 0, 10, 67, 69, 84, 45, 49, 67, 69, 83, 84, 44, 77, 51, 46, 53, 46, 48,
    44, 77, 49, 48, 46, 53, 46, 48, 47, 51, 10,
];

/// `Europe/Zurich`.
#[verifier::opaque]
pub const EUROPE_ZURICH: [u8; 497] = [
    84, 90, 105, 102, 50, 0, 0, 0, 0, 0, 0, 0, 0, 0, 0, 0, 0, 0, 0, 0, 0, 0, 0, 0, 0, 0, 0, 0, 0,
    0, 0, 0, 0, 0, 0, 0, 0, 0, 0, 1, 0, 0, 0, 1, 0, 0, 0, 0, 0, 0, 0, 84, 90, 105, 102, 50, 0, 0,
    0, 0, 0, 0, 0, 0, 0, 0, 0, 0, 0, 0, 0, 0, 0, 0, 0, 0, 0, 0, 0, 0, 0, 0, 0, 0, 0, 0, 37, 0, 0,
    0, 4, 0, 0, 0, 17, 255, 255, 255, 255, 36, 240, 234, 128, 255, 255, 255, 255, 113, 212, 6,
    134, 255, 255, 255, 255, 202, 23, 106, 0, 255, 255, 255, 255, 202, 226, 113, 0, 255, 255, 255,
    255, 203, 247, 76, 0, 255, 255, 255, 255, 204, 194, 83, 0, 0, 0, 0, 0, 21, 35, 235, 144, 0, 0,
    0, 0, 22, 19, 220, 144, 0, 0, 0, 0, 23, 3, 205, 144, 0, 0, 0, 0, 23, 243, 190, 144, 0, 0, 0,
    0, 24, 227, 175, 144, 0, 0, 0, 0, 25, 211, 160, 144, 0, 0, 0, 0, 26, 195, 145, 144, 0, 0, 0,
    0, 27, 188, 189, 16, 0, 0, 0, 0, 28, 172, 174, 16, 0, 0, 0, 0, 29, 156, 159, 16, 0, 0, 0, 0,
    30, 140, 144, 16, 0, 0, 0, 0, 31, 124, 129, 16, 0, 0, 0, 0, 32, 108, 114, 16, 0, 0, 0, 0, 33,
    92, 99, 16, 0, 0, 0, 0, 34, 76, 84, 16, 0, 0, 0, 0, 35, 60, 69, 16, 0, 0, 0, 0, 36, 44, 54,
    16, 0, 0, 0, 0, 37, 28, 39, 16, 0, 0, 0, 0, 38, 12, 24, 16, 0, 0, 0, 0, 39, 5, 67, 144, 0, 0,
    0, 0, 39, 245, 52, 144, 0, 0, 0, 0, 40, 229, 37, 144, 0, 0, 0, 0, 41, 213, 22, 144, 0, 0, 0,
    0, 42, 197, 7, 144, 0, 0, 0, 0, 43, 180, 248, 144, 0, 0, 0, 0, 44, 164, 233, 144, 0, 0, 0, 0,
    45, 148, 218, 144, 0, 0, 0, 0, 46, 132, 203, 144, 0, 0, 0, 0, 47, 116, 188, 144, 0, 0, 0, 0,
    48, 100, 173, 144, 0, 0, 0, 0, 49, 93, 217, 16, 1, 3, 2, 3, 2, 3, 2, 3, 2, 3, 2, 3, 2, 3, 2,
    3, 2, 3, 2, 3, 2, 3, 2, 3, 2, 3, 2, 3, 2, 3, 2, 3, 2, 3, 2, 3, 2, 0, 0, 8, 0, 0, 0, 0, 0, 6,
    250, 0, 4, 0, 0, 28, 32, 1, 8, 0, 0, 14, 16, 0, 13, 76, 77, 84, 0, 66, 77, 84, 0, 67, 69, 83,
    84, 0, 67, 69, 84, 0, 10, 67, 69, 84, 45, 49, 67, 69, 83, 84, 44, 77, 51, 46, 53, 46, 48, 44,
    77, 49, 48, 46, 53, 46, 48, 47, 51, 10,
];

/// `Factory`.
#[verifier::opaque]
pub const FACTORY: [u8; 113] = [
    84, 90, 105, 102, 50, 0, 0, 0, 0, 0, 0, 0, 0, 0, 0, 0, 0, 0, 0, 0, 0, 0, 0, 0, 0, 0, 0, 0, 0,
    0, 0, 0, 0, 0, 0, 0, 0, 0, 0, 1, 0, 0, 0, 1, 0, 0, 0, 0, 0, 0, 0, 84, 90, 105, 102, 50, 0, 0,
    0, 0, 0, 0, 0, 0, 0, 0, 0, 0, 0, 0, 0, 0, 0, 0, 0, 0, 0, 0, 0, 0, 0, 0, 0, 0, 0, 0, 0, 0, 0,
    0, 1, 0, 0, 0, 4, 0, 0, 0, 0, 0, 0, 45, 48, 48, 0, 10, 60, 45, 48, 48, 62, 48, 10,
];

/// `Indian/Chagos`.
#[verifier::opaque]
pub const INDIAN_CHAGOS: [u8; 152] = [
    84, 90, 105, 102, 50, 0, 0, 0, 0, 0, 0, 0, 0, 0, 0, 0, 0, 0, 0, 0, 0, 0, 0, 0, 0, 0, 0, 0, 0,
    0, 0, 0, 0, 0, 0, 0, 0, 0, 0, 1, 0, 0, 0, 1, 0, 0, 0, 0, 0, 0, 0, 84, 90, 105, 102, 50, 0, 0,
    0, 0, 0, 0, 0, 0, 0, 0, 0, 0, 0, 0, 0, 0, 0, 0, 0, 0, 0, 0, 0, 0, 0, 0, 0, 0, 0, 0, 2, 0, 0,
    0, 3, 0, 0, 0, 12, 255, 255, 255, 255, 137, 126, 247, 156, 0, 0, 0, 0, 48, 230, 221, 176, 1,
    2, 0, 0, 67, 228, 0, 0, 0, 0, 70, 80, 0, 4, 0, 0, 84, 96, 0, 8, 76, 77, 84, 0, 43, 48, 53, 0,
    43, 48, 54, 0, 10, 60, 43, 48, 54, 62, 45, 54, 10,
];

/// `Indian/Maldives`.
#[verifier::opaque]
pub const INDIAN_MALDIVES: [u8; 152] = [
    84, 90, 105, 102, 50, 0, 0, 0, 0, 0, 0, 0, 0, 0, 0, 0, 0, 0, 0, 0, 0, 0, 0, 0, 0, 0, 0, 0, 0,
    0, 0, 0, 0, 0, 0, 0, 0, 0, 0, 1, 0, 0, 0, 1, 0, 0, 0, 0, 0, 0, 0, 84, 90, 105, 102, 50, 0, 0,
    0, 0, 0, 0, 0, 0, 0, 0, 0, 0, 0, 0, 0, 0, 0, 0, 0, 0, 0, 0, 0, 0, 0, 0, 0, 0, 0, 0, 2, 0, 0,
    0, 3, 0, 0, 0, 12, 255, 255, 255, 255, 86, 182, 159, 24, 255, 255, 255, 255, 237, 47, 195,
    152, 1, 2, 0, 0, 68, 232, 0, 0, 0, 0, 68, 232, 0, 4, 0, 0, 70, 80, 0, 8, 76, 77, 84, 0, 77,
    77, 84, 0, 43, 48, 53, 0, 10, 60, 43, 48, 53, 62, 45, 53, 10,
];

/// `Indian/Mauritius`.
#[verifier::opaque]
pub const INDIAN_MAURITIUS: [u8; 179] = [
    84, 90, 105, 102, 50, 0, 0, 0, 0, 0, 0, 0, 0, 0, 0, 0, 0, 0, 0, 0, 0, 0, 0, 0, 0, 0, 0, 0, 0,
    0, 0, 0, 0, 0, 0, 0, 0, 0, 0, 1, 0, 0, 0, 1, 0, 0, 0, 0, 0, 0, 0, 84, 90, 105, 102, 50, 0, 0,
    0, 0, 0, 0, 0, 0, 0, 0, 0, 0, 0, 0, 0, 0, 0, 0, 0, 0, 0, 0, 0, 0, 0, 0, 0, 0, 0, 0, 5, 0, 0,
    0, 3, 0, 0, 0, 12, 255, 255, 255, 255, 137, 127, 5, 152, 0, 0, 0, 0, 24, 5, 237, 64, 0, 0, 0,
    0, 24, 219, 114, 48, 0, 0, 0, 0, 73, 3, 150, 224, 0, 0, 0, 0, 73, 206, 143, 208, 2, 1, 2, 1,
    2, 0, 0, 53, 232, 0, 0, 0, 0, 70, 80, 1, 4, 0, 0, 56, 64, 0, 8, 76, 77, 84, 0, 43, 48, 53, 0,
    43, 48, 52, 0, 10, 60, 43, 48, 52, 62, 45, 52, 10,
];

/// `Pacific/Apia`.
#[verifier::opaque]
pub const PACIFIC_APIA: [u8; 407] = [
    84, 90, 105, 102, 50, 0, 0, 0, 0, 0, 0, 0, 0, 0, 0, 0, 0, 0, 0, 0, 0, 0, 0, 0, 0, 0, 0, 0, 0,
    0, 0, 0, 0, 0, 0, 0, 0, 0, 0, 1, 0, 0, 0, 1, 0, 0, 0, 0, 0, 0, 0, 84, 90, 105, 102, 50, 0, 0,
    0, 0, 0, 0, 0, 0, 0, 0, 0, 0, 0, 0, 0, 0, 0, 0, 0, 0, 0, 0, 0, 0, 0, 0, 0, 0, 0, 0, 26, 0, 0,
    0, 7, 0, 0, 0, 26, 255, 255, 255, 255, 110, 61, 201, 0, 255, 255, 255, 255, 145, 5, 252, 0,
    255, 255, 255, 255, 218, 98, 4, 56, 0, 0, 0, 0, 76, 159, 39, 176, 0, 0, 0, 0, 77, 151, 43,
    224, 0, 0, 0, 0, 78, 125, 226, 96, 0, 0, 0, 0, 78, 253, 139, 160, 0, 0, 0, 0, 79, 119, 13,
    224, 0, 0, 0, 0, 80, 102, 254, 224, 0, 0, 0, 0, 81, 96, 42, 96, 0, 0, 0, 0, 82, 70, 224, 224,
    0, 0, 0, 0, 83, 64, 12, 96, 0, 0, 0, 0, 84, 38, 194, 224, 0, 0, 0, 0, 85, 31, 238, 96, 0, 0,
    0, 0, 86, 6, 164, 224, 0, 0, 0, 0, 86, 255, 208, 96, 0, 0, 0, 0, 87, 230, 134, 224, 0, 0, 0,
    0, 88, 223, 178, 96, 0, 0, 0, 0, 89, 198, 104, 224, 0, 0, 0, 0, 90, 191, 148, 96, 0, 0, 0, 0,
    91, 175, 133, 96, 0, 0, 0, 0, 92, 168, 176, 224, 0, 0, 0, 0, 93, 143, 103, 96, 0, 0, 0, 0, 94,
    136, 146, 224, 0, 0, 0, 0, 95, 111, 73, 96, 0, 0, 0, 0, 96, 104, 116, 224, 1, 2, 4, 3, 4, 3,
    6, 5, 6, 5, 6, 5, 6, 5, 6, 5, 6, 5, 6, 5, 6, 5, 6, 5, 6, 5, 0, 0, 176, 128, 0, 0, 255, 255,
    95, 0, 0, 0, 255, 255, 94, 72, 0, 4, 255, 255, 115, 96, 1, 10, 255, 255, 101, 80, 0, 14, 0, 0,
    182, 208, 0, 18, 0, 0, 196, 224, 1, 22, 76, 77, 84, 0, 45, 49, 49, 51, 48, 0, 45, 49, 48, 0,
    45, 49, 49, 0, 43, 49, 51, 0, 43, 49, 52, 0, 10, 60, 43, 49, 51, 62, 45, 49, 51, 10,
];

/// `Pacific/Auckland`.
#[verifier::opaque]
pub const PACIFIC_AUCKLAND: [u8; 1043] = [
    84, 90, 105, 102, 50, 0, 0, 0, 0, 0, 0, 0, 0, 0, 0, 0, 0, 0, 0, 0, 0, 0, 0, 0, 0, 0, 0, 0, 0,
    0, 0, 0, 0, 0, 0, 0, 0, 0, 0, 1, 0, 0, 0, 1, 0, 0, 0, 0, 0, 0, 0, 84, 90, 105, 102, 50, 0, 0,
    0, 0, 0, 0, 0, 0, 0, 0, 0, 0, 0, 0, 0, 0, 0, 0, 0, 0, 0, 0, 0, 0, 0, 0, 0, 0, 0, 0, 96, 0, 0,
    0, 6, 0, 0, 0, 19, 255, 255, 255, 255, 65, 183, 76, 168, 255, 255, 255, 255, 176, 180, 178,
    232, 255, 255, 255, 255, 177, 81, 135, 88, 255, 255, 255, 255, 178, 120, 229, 104, 255, 255,
    255, 255, 179, 67, 229, 96, 255, 255, 255, 255, 180, 88, 199, 104, 255, 255, 255, 255, 181,
    35, 199, 96, 255, 255, 255, 255, 182, 56, 169, 104, 255, 255, 255, 255, 183, 3, 169, 96, 255,
    255, 255, 255, 184, 24, 139, 104, 255, 255, 255, 255, 184, 236, 197, 224, 255, 255, 255, 255,
    185, 248, 109, 104, 255, 255, 255, 255, 186, 204, 167, 224, 255, 255, 255, 255, 187, 216, 79,
    104, 255, 255, 255, 255, 188, 227, 232, 224, 255, 255, 255, 255, 189, 174, 246, 232, 255, 255,
    255, 255, 190, 195, 202, 224, 255, 255, 255, 255, 191, 142, 216, 232, 255, 255, 255, 255, 192,
    163, 172, 224, 255, 255, 255, 255, 193, 110, 186, 232, 255, 255, 255, 255, 194, 131, 142, 224,
    255, 255, 255, 255, 195, 78, 156, 232, 255, 255, 255, 255, 196, 99, 112, 224, 255, 255, 255,
    255, 197, 46, 126, 232, 255, 255, 255, 255, 198, 76, 141, 96, 255, 255, 255, 255, 199, 14, 96,
    232, 255, 255, 255, 255, 200, 44, 111, 96, 255, 255, 255, 255, 200, 247, 125, 104, 255, 255,
    255, 255, 210, 218, 154, 64, 0, 0, 0, 0, 9, 24, 253, 224, 0, 0, 0, 0, 9, 172, 165, 224, 0, 0,
    0, 0, 10, 239, 165, 96, 0, 0, 0, 0, 11, 158, 252, 224, 0, 0, 0, 0, 12, 216, 193, 224, 0, 0, 0,
    0, 13, 126, 222, 224, 0, 0, 0, 0, 14, 184, 163, 224, 0, 0, 0, 0, 15, 94, 192, 224, 0, 0, 0, 0,
    16, 152, 133, 224, 0, 0, 0, 0, 17, 62, 162, 224, 0, 0, 0, 0, 18, 120, 103, 224, 0, 0, 0, 0,
    19, 30, 132, 224, 0, 0, 0, 0, 20, 88, 73, 224, 0, 0, 0, 0, 20, 254, 102, 224, 0, 0, 0, 0, 22,
    56, 43, 224, 0, 0, 0, 0, 22, 231, 131, 96, 0, 0, 0, 0, 24, 33, 72, 96, 0, 0, 0, 0, 24, 199,
    101, 96, 0, 0, 0, 0, 26, 1, 42, 96, 0, 0, 0, 0, 26, 167, 71, 96, 0, 0, 0, 0, 27, 225, 12, 96,
    0, 0, 0, 0, 28, 135, 41, 96, 0, 0, 0, 0, 29, 192, 238, 96, 0, 0, 0, 0, 30, 103, 11, 96, 0, 0,
    0, 0, 31, 160, 208, 96, 0, 0, 0, 0, 32, 70, 237, 96, 0, 0, 0, 0, 33, 128, 178, 96, 0, 0, 0, 0,
    34, 48, 9, 224, 0, 0, 0, 0, 35, 105, 206, 224, 0, 0, 0, 0, 36, 15, 235, 224, 0, 0, 0, 0, 37,
    46, 1, 96, 0, 0, 0, 0, 38, 2, 66, 224, 0, 0, 0, 0, 39, 13, 227, 96, 0, 0, 0, 0, 39, 226, 36,
    224, 0, 0, 0, 0, 40, 237, 197, 96, 0, 0, 0, 0, 41, 194, 6, 224, 0, 0, 0, 0, 42, 205, 167, 96,
    0, 0, 0, 0, 43, 171, 35, 96, 0, 0, 0, 0, 44, 173, 137, 96, 0, 0, 0, 0, 45, 139, 5, 96, 0, 0,
    0, 0, 46, 141, 107, 96, 0, 0, 0, 0, 47, 106, 231, 96, 0, 0, 0, 0, 48, 109, 77, 96, 0, 0, 0, 0,
    49, 74, 201, 96, 0, 0, 0, 0, 50, 86, 105, 224, 0, 0, 0, 0, 51, 42, 171, 96, 0, 0, 0, 0, 52,
    54, 75, 224, 0, 0, 0, 0, 53, 10, 141, 96, 0, 0, 0, 0, 54, 22, 45, 224, 0, 0, 0, 0, 54, 243,
    169, 224, 0, 0, 0, 0, 55, 246, 15, 224, 0, 0, 0, 0, 56, 211, 139, 224, 0, 0, 0, 0, 57, 213,
    241, 224, 0, 0, 0, 0, 58, 179, 109, 224, 0, 0, 0, 0, 59, 191, 14, 96, 0, 0, 0, 0, 60, 147, 79,
    224, 0, 0, 0, 0, 61, 158, 240, 96, 0, 0, 0, 0, 62, 115, 49, 224, 0, 0, 0, 0, 63, 126, 210, 96,
    0, 0, 0, 0, 64, 92, 78, 96, 0, 0, 0, 0, 65, 94, 180, 96, 0, 0, 0, 0, 66, 60, 48, 96, 0, 0, 0,
    0, 67, 62, 150, 96, 0, 0, 0, 0, 68, 28, 18, 96, 0, 0, 0, 0, 69, 30, 120, 96, 0, 0, 0, 0, 69,
    251, 244, 96, 0, 0, 0, 0, 70, 254, 90, 96, 2, 1, 2, 3, 2, 3, 2, 3, 2, 3, 2, 3, 2, 3, 2, 3, 2,
    3, 2, 3, 2, 3, 2, 3, 2, 3, 2, 3, 5, 4, 5, 4, 5, 4, 5, 4, 5, 4, 5, 4, 5, 4, 5, 4, 5, 4, 5, 4,
    5, 4, 5, 4, 5, 4, 5, 4, 5, 4, 5, 4, 5, 4, 5, 4, 5, 4, 5, 4, 5, 4, 5, 4, 5, 4, 5, 4, 5, 4, 5,
    4, 5, 4, 5, 4, 5, 4, 5, 4, 5, 4, 5, 4, 5, 4, 5, 4, 0, 0, 163, 216, 0, 0, 0, 0, 175, 200, 1, 4,
    0, 0, 161, 184, 0, 9, 0, 0, 168, 192, 1, 4, 0, 0, 182, 208, 1, 14, 0, 0, 168, 192, 0, 4, 76,
    77, 84, 0, 78, 90, 83, 84, 0, 78, 90, 77, 84, 0, 78, 90, 68, 84, 0, 10, 78, 90, 83, 84, 45,
    49, 50, 78, 90, 68, 84, 44, 77, 57, 46, 53, 46, 48, 44, 77, 52, 46, 49, 46, 48, 47, 51, 10,
];

/// `Pacific/Bougainville`.
#[verifier::opaque]
pub const PACIFIC_BOUGAINVILLE: [u8; 201] = [
    84, 90, 105, 102, 50, 0, 0, 0, 0, 0, 0, 0, 0, 0, 0, 0, 0, 0, 0, 0, 0, 0, 0, 0, 0, 0, 0, 0, 0,
    0, 0, 0, 0, 0, 0, 0, 0, 0, 0, 1, 0, 0, 0, 1, 0, 0, 0, 0, 0, 0, 0, 84, 90, 105, 102, 50, 0, 0,
    0, 0, 0, 0, 0, 0, 0, 0, 0, 0, 0, 0, 0, 0, 0, 0, 0, 0, 0, 0, 0, 0, 0, 0, 0, 0, 0, 0, 5, 0, 0,
    0, 5, 0, 0, 0, 21, 255, 255, 255, 255, 86, 182, 82, 40, 255, 255, 255, 255, 114, 237, 164,
    144, 255, 255, 255, 255, 204, 67, 54, 96, 255, 255, 255, 255, 210, 43, 108, 240, 0, 0, 0, 0,
    84, 158, 215, 128, 1, 2, 3, 2, 4, 0, 0, 145, 216, 0, 0, 0, 0, 137, 240, 0, 4, 0, 0, 140, 160,
    0, 9, 0, 0, 126, 144, 0, 13, 0, 0, 154, 176, 0, 17, 76, 77, 84, 0, 80, 77, 77, 84, 0, 43, 49,
    48, 0, 43, 48, 57, 0, 43, 49, 49, 0, 10, 60, 43, 49, 49, 62, 45, 49, 49, 10,
];

/// `Pacific/Chatham`.
#[verifier::opaque]
pub const PACIFIC_CHATHAM: [u8; 808] = [
    84, 90, 105, 102, 50, 0, 0, 0, 0, 0, 0, 0, 0, 0, 0, 0, 0, 0, 0, 0, 0, 0, 0, 0, 0, 0, 0, 0, 0,
    0, 0, 0, 0, 0, 0, 0, 0, 0, 0, 1, 0, 0, 0, 1, 0, 0, 0, 0, 0, 0, 0, 84, 90, 105, 102, 50, 0, 0,
    0, 0, 0, 0, 0, 0, 0, 0, 0, 0, 0, 0, 0, 0, 0, 0, 0, 0, 0, 0, 0, 0, 0, 0, 0, 0, 0, 0, 69, 0, 0,
    0, 4, 0, 0, 0, 22, 255, 255, 255, 255, 65, 183, 68, 132, 255, 255, 255, 255, 210, 218, 150,
    188, 0, 0, 0, 0, 9, 24, 253, 224, 0, 0, 0, 0, 9, 172, 165, 224, 0, 0, 0, 0, 10, 239, 165, 96,
    0, 0, 0, 0, 11, 158, 252, 224, 0, 0, 0, 0, 12, 216, 193, 224, 0, 0, 0, 0, 13, 126, 222, 224,
    0, 0, 0, 0, 14, 184, 163, 224, 0, 0, 0, 0, 15, 94, 192, 224, 0, 0, 0, 0, 16, 152, 133, 224, 0,
    0, 0, 0, 17, 62, 162, 224, 0, 0, 0, 0, 18, 120, 103, 224, 0, 0, 0, 0, 19, 30, 132, 224, 0, 0,
    0, 0, 20, 88, 73, 224, 0, 0, 0, 0, 20, 254, 102, 224, 0, 0, 0, 0, 22, 56, 43, 224, 0, 0, 0, 0,
    22, 231, 131, 96, 0, 0, 0, 0, 24, 33, 72, 96, 0, 0, 0, 0, 24, 199, 101, 96, 0, 0, 0, 0, 26, 1,
    42, 96, 0, 0, 0, 0, 26, 167, 71, 96, 0, 0, 0, 0, 27, 225, 12, 96, 0, 0, 0, 0, 28, 135, 41, 96,
    0, 0, 0, 0, 29, 192, 238, 96, 0, 0, 0, 0, 30, 103, 11, 96, 0, 0, 0, 0, 31, 160, 208, 96, 0, 0,
    0, 0, 32, 70, 237, 96, 0, 0, 0, 0, 33, 128, 178, 96, 0, 0, 0, 0, 34, 48, 9, 224, 0, 0, 0, 0,
    35, 105, 206, 224, 0, 0, 0, 0, 36, 15, 235, 224, 0, 0, 0, 0, 37, 46, 1, 96, 0, 0, 0, 0, 38, 2,
    66, 224, 0, 0, 0, 0, 39, 13, 227, 96, 0, 0, 0, 0, 39, 226, 36, 224, 0, 0, 0, 0, 40, 237, 197,
    96, 0, 0, 0, 0, 41, 194, 6, 224, 0, 0, 0, 0, 42, 205, 167, 96, 0, 0, 0, 0, 43, 171, 35, 96, 0,
    0, 0, 0, 44, 173, 137, 96, 0, 0, 0, 0, 45, 139, 5, 96, 0, 0, 0, 0, 46, 141, 107, 96, 0, 0, 0,
    0, 47, 106, 231, 96, 0, 0, 0, 0, 48, 109, 77, 96, 0, 0, 0, 0, 49, 74, 201, 96, 0, 0, 0, 0, 50,
    86, 105, 224, 0, 0, 0, 0, 51, 42, 171, 96, 0, 0, 0, 0, 52, 54, 75, 224, 0, 0, 0, 0, 53, 10,
    141, 96, 0, 0, 0, 0, 54, 22, 45, 224, 0, 0, 0, 0, 54, 243, 169, 224, 0, 0, 0, 0, 55, 246, 15,
    224, 0, 0, 0, 0, 56, 211, 139, 224, 0, 0, 0, 0, 57, 213, 241, 224, 0, 0, 0, 0, 58, 179, 109,
    224, 0, 0, 0, 0, 59, 191, 14, 96, 0, 0, 0, 0, 60, 147, 79, 224, 0, 0, 0, 0, 61, 158, 240, 96,
    0, 0, 0, 0, 62, 115, 49, 224, 0, 0, 0, 0, 63, 126, 210, 96, 0, 0, 0, 0, 64, 92, 78, 96, 0, 0,
    0, 0, 65, 94, 180, 96, 0, 0, 0, 0, 66, 60, 48, 96, 0, 0, 0, 0, 67, 62, 150, 96, 0, 0, 0, 0,
    68, 28, 18, 96, 0, 0, 0, 0, 69, 30, 120, 96, 0, 0, 0, 0, 69, 251, 244, 96, 0, 0, 0, 0, 70,
    254, 90, 96, 1, 3, 2, 3, 2, 3, 2, 3, 2, 3, 2, 3, 2, 3, 2, 3, 2, 3, 2, 3, 2, 3, 2, 3, 2, 3, 2,
    3, 2, 3, 2, 3, 2, 3, 2, 3, 2, 3, 2, 3, 2, 3, 2, 3, 2, 3, 2, 3, 2, 3, 2, 3, 2, 3, 2, 3, 2, 3,
    2, 3, 2, 3, 2, 3, 2, 3, 2, 3, 2, 0, 0, 171, 252, 0, 0, 0, 0, 172, 68, 0, 4, 0, 0, 193, 92, 1,
    10, 0, 0, 179, 76, 0, 16, 76, 77, 84, 0, 43, 49, 50, 49, 53, 0, 43, 49, 51, 52, 53, 0, 43, 49,
    50, 52, 53, 0, 10, 60, 43, 49, 50, 52, 53, 62, 45, 49, 50, 58, 52, 53, 60, 43, 49, 51, 52, 53,
    62, 44, 77, 57, 46, 53, 46, 48, 47, 50, 58, 52, 53, 44, 77, 52, 46, 49, 46, 48, 47, 51, 58,
    52, 53, 10,
];

/// `Pacific/Easter`.
#[verifier::opaque]
pub const PACIFIC_EASTER: [u8; 1174] = [
    84, 90, 105, 102, 51, 0, 0, 0, 0, 0, 0, 0, 0, 0, 0, 0, 0, 0, 0, 0, 0, 0, 0, 0, 0, 0, 0, 0, 0,
    0, 0, 0, 0, 0, 0, 0, 0, 0, 0, 1, 0, 0, 0, 1, 0, 0, 0, 0, 0, 0, 0, 84, 90, 105, 102, 51, 0, 0,
    0, 0, 0, 0, 0, 0, 0, 0, 0, 0, 0, 0, 0, 0, 0, 0, 0, 0, 0, 0, 0, 0, 0, 0, 0, 0, 0, 0, 110, 0, 0,
    0, 6, 0, 0, 0, 20, 255, 255, 255, 255, 105, 135, 66, 8, 255, 255, 255, 255, 185, 199, 64, 136,
    255, 255, 255, 255, 253, 209, 60, 64, 255, 255, 255, 255, 254, 146, 250, 176, 255, 255, 255,
    255, 255, 204, 205, 192, 0, 0, 0, 0, 0, 114, 220, 176, 0, 0, 0, 0, 1, 117, 80, 192, 0, 0, 0,
    0, 2, 64, 73, 176, 0, 0, 0, 0, 3, 85, 50, 192, 0, 0, 0, 0, 4, 32, 43, 176, 0, 0, 0, 0, 5, 62,
    79, 64, 0, 0, 0, 0, 6, 0, 13, 176, 0, 0, 0, 0, 7, 11, 188, 64, 0, 0, 0, 0, 7, 223, 239, 176,
    0, 0, 0, 0, 8, 254, 19, 64, 0, 0, 0, 0, 9, 191, 209, 176, 0, 0, 0, 0, 10, 221, 245, 64, 0, 0,
    0, 0, 11, 168, 238, 48, 0, 0, 0, 0, 12, 189, 215, 64, 0, 0, 0, 0, 13, 136, 208, 48, 0, 0, 0,
    0, 14, 157, 185, 64, 0, 0, 0, 0, 15, 104, 178, 48, 0, 0, 0, 0, 16, 134, 213, 192, 0, 0, 0, 0,
    17, 72, 148, 48, 0, 0, 0, 0, 18, 102, 183, 192, 0, 0, 0, 0, 19, 40, 118, 48, 0, 0, 0, 0, 20,
    70, 153, 192, 0, 0, 0, 0, 21, 17, 146, 176, 0, 0, 0, 0, 22, 38, 123, 192, 0, 0, 0, 0, 22, 241,
    116, 176, 0, 0, 0, 0, 24, 6, 93, 192, 0, 0, 0, 0, 24, 209, 86, 176, 0, 0, 0, 0, 25, 230, 63,
    192, 0, 0, 0, 0, 26, 177, 56, 176, 0, 0, 0, 0, 27, 207, 92, 64, 0, 0, 0, 0, 28, 145, 26, 176,
    0, 0, 0, 0, 29, 175, 62, 64, 0, 0, 0, 0, 30, 112, 252, 176, 0, 0, 0, 0, 31, 143, 32, 64, 0, 0,
    0, 0, 32, 127, 3, 48, 0, 0, 0, 0, 33, 111, 2, 64, 0, 0, 0, 0, 34, 57, 251, 48, 0, 0, 0, 0, 35,
    78, 228, 64, 0, 0, 0, 0, 36, 25, 221, 48, 0, 0, 0, 0, 37, 56, 0, 192, 0, 0, 0, 0, 37, 249,
    191, 48, 0, 0, 0, 0, 38, 242, 248, 192, 0, 0, 0, 0, 39, 217, 161, 48, 0, 0, 0, 0, 40, 247,
    196, 192, 0, 0, 0, 0, 41, 194, 189, 176, 0, 0, 0, 0, 42, 215, 166, 192, 0, 0, 0, 0, 43, 162,
    159, 176, 0, 0, 0, 0, 44, 183, 136, 192, 0, 0, 0, 0, 45, 130, 129, 176, 0, 0, 0, 0, 46, 151,
    106, 192, 0, 0, 0, 0, 47, 98, 99, 176, 0, 0, 0, 0, 48, 128, 135, 64, 0, 0, 0, 0, 49, 66, 69,
    176, 0, 0, 0, 0, 50, 96, 105, 64, 0, 0, 0, 0, 51, 61, 215, 48, 0, 0, 0, 0, 52, 64, 75, 64, 0,
    0, 0, 0, 53, 11, 68, 48, 0, 0, 0, 0, 54, 13, 184, 64, 0, 0, 0, 0, 55, 6, 213, 176, 0, 0, 0, 0,
    56, 0, 15, 64, 0, 0, 0, 0, 56, 203, 8, 48, 0, 0, 0, 0, 57, 233, 43, 192, 0, 0, 0, 0, 58, 170,
    234, 48, 0, 0, 0, 0, 59, 201, 13, 192, 0, 0, 0, 0, 60, 138, 204, 48, 0, 0, 0, 0, 61, 168, 239,
    192, 0, 0, 0, 0, 62, 106, 174, 48, 0, 0, 0, 0, 63, 136, 209, 192, 0, 0, 0, 0, 64, 83, 202,
    176, 0, 0, 0, 0, 65, 104, 179, 192, 0, 0, 0, 0, 66, 51, 172, 176, 0, 0, 0, 0, 67, 72, 149,
    192, 0, 0, 0, 0, 68, 19, 142, 176, 0, 0, 0, 0, 69, 49, 178, 64, 0, 0, 0, 0, 69, 243, 112, 176,
    0, 0, 0, 0, 71, 17, 148, 64, 0, 0, 0, 0, 71, 239, 2, 48, 0, 0, 0, 0, 72, 241, 118, 64, 0, 0,
    0, 0, 73, 188, 111, 48, 0, 0, 0, 0, 74, 209, 88, 64, 0, 0, 0, 0, 75, 184, 0, 176, 0, 0, 0, 0,
    76, 177, 58, 64, 0, 0, 0, 0, 77, 198, 7, 48, 0, 0, 0, 0, 78, 80, 130, 192, 0, 0, 0, 0, 79,
    156, 174, 176, 0, 0, 0, 0, 80, 66, 217, 192, 0, 0, 0, 0, 81, 124, 144, 176, 0, 0, 0, 0, 82,
    43, 246, 64, 0, 0, 0, 0, 83, 92, 114, 176, 0, 0, 0, 0, 84, 11, 216, 64, 0, 0, 0, 0, 87, 55,
    230, 48, 0, 0, 0, 0, 87, 175, 236, 192, 0, 0, 0, 0, 89, 23, 200, 48, 0, 0, 0, 0, 89, 143, 206,
    192, 0, 0, 0, 0, 90, 247, 170, 48, 0, 0, 0, 0, 91, 111, 176, 192, 0, 0, 0, 0, 92, 169, 103,
    176, 0, 0, 0, 0, 93, 116, 124, 192, 0, 0, 0, 0, 94, 137, 73, 176, 0, 0, 0, 0, 95, 84, 94, 192,
    0, 0, 0, 0, 96, 105, 43, 176, 0, 0, 0, 0, 97, 52, 64, 192, 0, 0, 0, 0, 98, 73, 13, 176, 0, 0,
    0, 0, 99, 29, 93, 64, 0, 0, 0, 0, 100, 40, 239, 176, 1, 3, 2, 3, 2, 3, 2, 3, 2, 3, 2, 3, 2, 3,
    2, 3, 2, 3, 2, 3, 2, 3, 2, 3, 2, 3, 2, 3, 2, 4, 5, 4, 5, 4, 5, 4, 5, 4, 5, 4, 5, 4, 5, 4, 5,
    4, 5, 4, 5, 4, 5, 4, 5, 4, 5, 4, 5, 4, 5, 4, 5, 4, 5, 4, 5, 4, 5, 4, 5, 4, 5, 4, 5, 4, 5, 4,
    5, 4, 5, 4, 5, 4, 5, 4, 5, 4, 5, 4, 5, 4, 5, 4, 5, 4, 5, 4, 5, 4, 5, 4, 5, 4, 5, 4, 5, 4, 5,
    4, 5, 4, 255, 255, 153, 120, 0, 0, 255, 255, 153, 120, 0, 4, 255, 255, 171, 160, 1, 8, 255,
    255, 157, 144, 0, 12, 255, 255, 171, 160, 0, 8, 255, 255, 185, 176, 1, 16, 76, 77, 84, 0, 69,
    77, 84, 0, 45, 48, 54, 0, 45, 48, 55, 0, 45, 48, 53, 0, 10, 60, 45, 48, 54, 62, 54, 60, 45,
    48, 53, 62, 44, 77, 57, 46, 49, 46, 54, 47, 50, 50, 44, 77, 52, 46, 49, 46, 54, 47, 50, 50,
    10,
];

/// `Pacific/Efate`.
#[verifier::opaque]
pub const PACIFIC_EFATE: [u8; 342] = [
    84, 90, 105, 102, 50, 0, 0, 0, 0, 0, 0, 0, 0, 0, 0, 0, 0, 0, 0, 0, 0, 0, 0, 0, 0, 0, 0, 0, 0,
    0, 0, 0, 0, 0, 0, 0, 0, 0, 0, 1, 0, 0, 0, 1, 0, 0, 0, 0, 0, 0, 0, 84, 90, 105, 102, 50, 0, 0,
    0, 0, 0, 0, 0, 0, 0, 0, 0, 0, 0, 0, 0, 0, 0, 0, 0, 0, 0, 0, 0, 0, 0, 0, 0, 0, 0, 0, 23, 0, 0,
    0, 3, 0, 0, 0, 12, 255, 255, 255, 255, 146, 245, 194, 180, 0, 0, 0, 0, 7, 121, 153, 64, 0, 0,
    0, 0, 7, 250, 204, 64, 0, 0, 0, 0, 25, 210, 247, 208, 0, 0, 0, 0, 26, 194, 218, 192, 0, 0, 0,
    0, 27, 178, 217, 208, 0, 0, 0, 0, 28, 162, 188, 192, 0, 0, 0, 0, 29, 155, 246, 80, 0, 0, 0, 0,
    30, 130, 158, 192, 0, 0, 0, 0, 31, 123, 216, 80, 0, 0, 0, 0, 32, 107, 187, 64, 0, 0, 0, 0, 33,
    91, 186, 80, 0, 0, 0, 0, 34, 75, 157, 64, 0, 0, 0, 0, 35, 59, 156, 80, 0, 0, 0, 0, 36, 43,
    127, 64, 0, 0, 0, 0, 37, 27, 126, 80, 0, 0, 0, 0, 38, 11, 97, 64, 0, 0, 0, 0, 38, 251, 96, 80,
    0, 0, 0, 0, 39, 235, 67, 64, 0, 0, 0, 0, 40, 228, 124, 208, 0, 0, 0, 0, 41, 129, 81, 64, 0, 0,
    0, 0, 42, 233, 72, 208, 0, 0, 0, 0, 43, 97, 51, 64, 2, 1, 2, 1, 2, 1, 2, 1, 2, 1, 2, 1, 2, 1,
    2, 1, 2, 1, 2, 1, 2, 1, 2, 0, 0, 157, 204, 0, 0, 0, 0, 168, 192, 1, 4, 0, 0, 154, 176, 0, 8,
    76, 77, 84, 0, 43, 49, 50, 0, 43, 49, 49, 0, 10, 60, 43, 49, 49, 62, 45, 49, 49, 10,
];

/// `Pacific/Fakaofo`.
#[verifier::opaque]
pub const PACIFIC_FAKAOFO: [u8; 153] = [
    84, 90, 105, 102, 50, 0, 0, 0, 0, 0, 0, 0, 0, 0, 0, 0, 0, 0, 0, 0, 0, 0, 0, 0, 0, 0, 0, 0, 0,
    0, 0, 0, 0, 0, 0, 0, 0, 0, 0, 1, 0, 0, 0, 1, 0, 0, 0, 0, 0, 0, 0, 84, 90, 105, 102, 50, 0, 0,
    0, 0, 0, 0, 0, 0, 0, 0, 0, 0, 0, 0, 0, 0, 0, 0, 0, 0, 0, 0, 0, 0, 0, 0, 0, 0, 0, 0, 2, 0, 0,
    0, 3, 0, 0, 0, 12, 255, 255, 255, 255, 126, 55, 85, 136, 0, 0, 0, 0, 78, 253, 153, 176, 1, 2,
    255, 255, 95, 120, 0, 0, 255, 255, 101, 80, 0, 4, 0, 0, 182, 208, 0, 8, 76, 77, 84, 0, 45, 49,
    49, 0, 43, 49, 51, 0, 10, 60, 43, 49, 51, 62, 45, 49, 51, 10,
];

/// `Pacific/Fiji`.
#[verifier::opaque]
pub const PACIFIC_FIJI: [u8; 396] = [
    84, 90, 105, 102, 50, 0, 0, 0, 0, 0, 0, 0, 0, 0, 0, 0, 0, 0, 0, 0, 0, 0, 0, 0, 0, 0, 0, 0, 0,
    0, 0, 0, 0, 0, 0, 0, 0, 0, 0, 1, 0, 0, 0, 1, 0, 0, 0, 0, 0, 0, 0, 84, 90, 105, 102, 50, 0, 0,
    0, 0, 0, 0, 0, 0, 0, 0, 0, 0, 0, 0, 0, 0, 0, 0, 0, 0, 0, 0, 0, 0, 0, 0, 0, 0, 0, 0, 29, 0, 0,
    0, 3, 0, 0, 0, 12, 255, 255, 255, 255, 154, 19, 177, 192, 0, 0, 0, 0, 54, 59, 23, 224, 0, 0,
    0, 0, 54, 215, 250, 96, 0, 0, 0, 0, 56, 36, 52, 96, 0, 0, 0, 0, 56, 183, 220, 96, 0, 0, 0, 0,
    75, 17, 44, 224, 0, 0, 0, 0, 75, 174, 15, 96, 0, 0, 0, 0, 76, 194, 234, 96, 0, 0, 0, 0, 77,
    114, 65, 224, 0, 0, 0, 0, 78, 162, 204, 96, 0, 0, 0, 0, 79, 26, 196, 224, 0, 0, 0, 0, 80, 130,
    174, 96, 0, 0, 0, 0, 80, 250, 166, 224, 0, 0, 0, 0, 82, 107, 202, 224, 0, 0, 0, 0, 82, 218,
    122, 208, 0, 0, 0, 0, 84, 84, 231, 96, 0, 0, 0, 0, 84, 186, 106, 224, 0, 0, 0, 0, 86, 52, 201,
    96, 0, 0, 0, 0, 86, 154, 76, 224, 0, 0, 0, 0, 88, 29, 229, 224, 0, 0, 0, 0, 88, 122, 46, 224,
    0, 0, 0, 0, 89, 253, 199, 224, 0, 0, 0, 0, 90, 90, 16, 224, 0, 0, 0, 0, 91, 221, 169, 224, 0,
    0, 0, 0, 92, 57, 242, 224, 0, 0, 0, 0, 93, 198, 198, 96, 0, 0, 0, 0, 94, 25, 212, 224, 0, 0,
    0, 0, 95, 222, 7, 96, 0, 0, 0, 0, 96, 2, 241, 96, 2, 1, 2, 1, 2, 1, 2, 1, 2, 1, 2, 1, 2, 1, 2,
    1, 2, 1, 2, 1, 2, 1, 2, 1, 2, 1, 2, 1, 2, 0, 0, 167, 192, 0, 0, 0, 0, 182, 208, 1, 4, 0, 0,
    168, 192, 0, 8, 76, 77, 84, 0, 43, 49, 51, 0, 43, 49, 50, 0, 10, 60, 43, 49, 50, 62, 45, 49,
    50, 10,
];

/// `Pacific/Galapagos`.
#[verifier::opaque]
pub const PACIFIC_GALAPAGOS: [u8; 175] = [
    84, 90, 105, 102, 50, 0, 0, 0, 0, 0, 0, 0, 0, 0, 0, 0, 0, 0, 0, 0, 0, 0, 0, 0, 0, 0, 0, 0, 0,
    0, 0, 0, 0, 0, 0, 0, 0, 0, 0, 1, 0, 0, 0, 1, 0, 0, 0, 0, 0, 0, 0, 84, 90, 105, 102, 50, 0, 0,
    0, 0, 0, 0, 0, 0, 0, 0, 0, 0, 0, 0, 0, 0, 0, 0, 0, 0, 0, 0, 0, 0, 0, 0, 0, 0, 0, 0, 4, 0, 0,
    0, 4, 0, 0, 0, 12, 255, 255, 255, 255, 182, 164, 76, 128, 0, 0, 0, 0, 30, 24, 196, 80, 0, 0,
    0, 0, 43, 23, 10, 224, 0, 0, 0, 0, 43, 113, 244, 80, 1, 3, 2, 3, 255, 255, 172, 0, 0, 0, 255,
    255, 185, 176, 0, 4, 255, 255, 185, 176, 1, 4, 255, 255, 171, 160, 0, 8, 76, 77, 84, 0, 45,
    48, 53, 0, 45, 48, 54, 0, 10, 60, 45, 48, 54, 62, 54, 10,
];

/// `Pacific/Gambier`.
#[verifier::opaque]
pub const PACIFIC_GAMBIER: [u8; 132] = [
    84, 90, 105, 102, 50, 0, 0, 0, 0, 0, 0, 0, 0, 0, 0, 0, 0, 0, 0, 0, 0, 0, 0, 0, 0, 0, 0, 0, 0,
    0, 0, 0, 0, 0, 0, 0, 0, 0, 0, 1, 0, 0, 0, 1, 0, 0, 0, 0, 0, 0, 0, 84, 90, 105, 102, 50, 0, 0,
    0, 0, 0, 0, 0, 0, 0, 0, 0, 0, 0, 0, 0, 0, 0, 0, 0, 0, 0, 0, 0, 0, 0, 0, 0, 0, 0, 0, 1, 0, 0,
    0, 2, 0, 0, 0, 8, 255, 255, 255, 255, 148, 80, 72, 4, 1, 255, 255, 129, 124, 0, 0, 255, 255,
    129, 112, 0, 4, 76, 77, 84, 0, 45, 48, 57, 0, 10, 60, 45, 48, 57, 62, 57, 10,
];

/// `Pacific/Guadalcanal`.
#[verifier::opaque]
pub const PACIFIC_GUADALCANAL: [u8; 134] = [
    84, 90, 105, 102, 50, 0, 0, 0, 0, 0, 0, 0, 0, 0, 0, 0, 0, 0, 0, 0, 0, 0, 0, 0, 0, 0, 0, 0, 0,
    0, 0, 0, 0, 0, 0, 0, 0, 0, 0, 1, 0, 0, 0, 1, 0, 0, 0, 0, 0, 0, 0, 84, 90, 105, 102, 50, 0, 0,
    0, 0, 0, 0, 0, 0, 0, 0, 0, 0, 0, 0, 0, 0, 0, 0, 0, 0, 0, 0, 0, 0, 0, 0, 0, 0, 0, 0, 1, 0, 0,
    0, 2, 0, 0, 0, 8, 255, 255, 255, 255, 148, 79, 51, 140, 1, 0, 0, 149, 244, 0, 0, 0, 0, 154,
    176, 0, 4, 76, 77, 84, 0, 43, 49, 49, 0, 10, 60, 43, 49, 49, 62, 45, 49, 49, 10,
];

/// `Pacific/Guam`.
#[verifier::opaque]
pub const PACIFIC_GUAM: [u8; 350] = [
    84, 90, 105, 102, 50, 0, 0, 0, 0, 0, 0, 0, 0, 0, 0, 0, 0, 0, 0, 0, 0, 0, 0, 0, 0, 0, 0, 0, 0,
    0, 0, 0, 0, 0, 0, 0, 0, 0, 0, 1, 0, 0, 0, 1, 0, 0, 0, 0, 0, 0, 0, 84, 90, 105, 102, 50, 0, 0,
    0, 0, 0, 0, 0, 0, 0, 0, 0, 0, 0, 0, 0, 0, 0, 0, 0, 0, 0, 0, 0, 0, 0, 0, 0, 0, 0, 0, 21, 0, 0,
    0, 6, 0, 0, 0, 21, 255, 255, 255, 255, 20, 225, 197, 204, 255, 255, 255, 255, 126, 54, 45, 76,
    255, 255, 255, 255, 203, 55, 149, 224, 255, 255, 255, 255, 208, 46, 137, 240, 255, 255, 255,
    255, 236, 55, 190, 0, 255, 255, 255, 255, 239, 54, 248, 240, 255, 255, 255, 255, 251, 155, 0,
    0, 255, 255, 255, 255, 254, 63, 39, 140, 255, 255, 255, 255, 255, 1, 30, 0, 255, 255, 255,
    255, 255, 93, 88, 240, 0, 0, 0, 0, 0, 151, 44, 0, 0, 0, 0, 0, 1, 70, 117, 112, 0, 0, 0, 0, 2,
    119, 14, 0, 0, 0, 0, 0, 3, 38, 87, 112, 0, 0, 0, 0, 7, 112, 151, 0, 0, 0, 0, 0, 7, 204, 209,
    240, 0, 0, 0, 0, 12, 8, 145, 0, 0, 0, 0, 0, 12, 124, 135, 44, 0, 0, 0, 0, 13, 191, 148, 128,
    0, 0, 0, 0, 14, 101, 163, 112, 0, 0, 0, 0, 58, 67, 94, 96, 1, 2, 3, 2, 4, 2, 4, 2, 4, 2, 4, 2,
    4, 2, 4, 2, 4, 2, 4, 2, 5, 255, 255, 54, 52, 0, 0, 0, 0, 135, 180, 0, 0, 0, 0, 140, 160, 0, 4,
    0, 0, 126, 144, 0, 8, 0, 0, 154, 176, 1, 12, 0, 0, 140, 160, 0, 16, 76, 77, 84, 0, 71, 83, 84,
    0, 43, 48, 57, 0, 71, 68, 84, 0, 67, 104, 83, 84, 0, 10, 67, 104, 83, 84, 45, 49, 48, 10,
];

/// `Pacific/Honolulu`.
#[verifier::opaque]
pub const PACIFIC_HONOLULU: [u8; 221] = [
    84, 90, 105, 102, 50, 0, 0, 0, 0, 0, 0, 0, 0, 0, 0, 0, 0, 0, 0, 0, 0, 0, 0, 0, 0, 0, 0, 0, 0,
    0, 0, 0, 0, 0, 0, 0, 0, 0, 0, 1, 0, 0, 0, 1, 0, 0, 0, 0, 0, 0, 0, 84, 90, 105, 102, 50, 0, 0,
    0, 0, 0, 0, 0, 0, 0, 0, 0, 0, 0, 0, 0, 0, 0, 0, 0, 0, 0, 0, 0, 0, 0, 0, 0, 0, 0, 0, 7, 0, 0,
    0, 6, 0, 0, 0, 20, 255, 255, 255, 255, 116, 224, 112, 190, 255, 255, 255, 255, 187, 5, 67, 72,
    255, 255, 255, 255, 187, 33, 113, 88, 255, 255, 255, 255, 203, 137, 61, 200, 255, 255, 255,
    255, 210, 35, 244, 112, 255, 255, 255, 255, 210, 97, 73, 56, 255, 255, 255, 255, 213, 141,
    115, 72, 1, 2, 1, 3, 4, 1, 5, 255, 255, 108, 2, 0, 0, 255, 255, 108, 88, 0, 4, 255, 255, 122,
    104, 1, 8, 255, 255, 122, 104, 1, 12, 255, 255, 122, 104, 1, 16, 255, 255, 115, 96, 0, 4, 76,
    77, 84, 0, 72, 83, 84, 0, 72, 68, 84, 0, 72, 87, 84, 0, 72, 80, 84, 0, 10, 72, 83, 84, 49, 48,
    10,
];

/// `Pacific/Kanton`.
#[verifier::opaque]
pub const PACIFIC_KANTON: [u8; 172] = [
    84, 90, 105, 102, 50, 0, 0, 0, 0, 0, 0, 0, 0, 0, 0, 0, 0, 0, 0, 0, 0, 0, 0, 0, 0, 0, 0, 0, 0,
    0, 0, 0, 0, 0, 0, 0, 0, 0, 0, 1, 0, 0, 0, 1, 0, 0, 0, 0, 0, 0, 0, 84, 90, 105, 102, 50, 0, 0,
    0, 0, 0, 0, 0, 0, 0, 0, 0, 0, 0, 0, 0, 0, 0, 0, 0, 0, 0, 0, 0, 0, 0, 0, 0, 0, 0, 0, 3, 0, 0,
    0, 4, 0, 0, 0, 16, 255, 255, 255, 255, 195, 44, 219, 128, 0, 0, 0, 0, 18, 86, 4, 192, 0, 0, 0,
    0, 47, 5, 57, 176, 1, 2, 3, 0, 0, 0, 0, 0, 0, 255, 255, 87, 64, 0, 4, 255, 255, 101, 80, 0, 8,
    0, 0, 182, 208, 0, 12, 45, 48, 48, 0, 45, 49, 50, 0, 45, 49, 49, 0, 43, 49, 51, 0, 10, 60, 43,
    49, 51, 62, 45, 49, 51, 10,
];

/// `Pacific/Kiritimati`.
#[verifier::opaque]
pub const PACIFIC_KIRITIMATI: [u8; 174] = [
    84, 90, 105, 102, 50, 0, 0, 0, 0, 0, 0, 0, 0, 0, 0, 0, 0, 0, 0, 0, 0, 0, 0, 0, 0, 0, 0, 0, 0,
    0, 0, 0, 0, 0, 0, 0, 0, 0, 0, 1, 0, 0, 0, 1, 0, 0, 0, 0, 0, 0, 0, 84, 90, 105, 102, 50, 0, 0,
    0, 0, 0, 0, 0, 0, 0, 0, 0, 0, 0, 0, 0, 0, 0, 0, 0, 0, 0, 0, 0, 0, 0, 0, 0, 0, 0, 0, 3, 0, 0,
    0, 4, 0, 0, 0, 18, 255, 255, 255, 255, 126, 55, 72, 128, 0, 0, 0, 0, 18, 85, 242, 0, 0, 0, 0,
    0, 47, 5, 43, 160, 1, 2, 3, 255, 255, 108, 128, 0, 0, 255, 255, 106, 0, 0, 4, 255, 255, 115,
    96, 0, 10, 0, 0, 196, 224, 0, 14, 76, 77, 84, 0, 45, 49, 48, 52, 48, 0, 45, 49, 48, 0, 43, 49,
    52, 0, 10, 60, 43, 49, 52, 62, 45, 49, 52, 10,
];

/// `Pacific/Kosrae`.
#[verifier::opaque]
pub const PACIFIC_KOSRAE: [u8; 242] = [
    84, 90, 105, 102, 50, 0, 0, 0, 0, 0, 0, 0, 0, 0, 0, 0, 0, 0, 0, 0, 0, 0, 0, 0, 0, 0, 0, 0, 0,
    0, 0, 0, 0, 0, 0, 0, 0, 0, 0, 1, 0, 0, 0, 1, 0, 0, 0, 0, 0, 0, 0, 84, 90, 105, 102, 50, 0, 0,
    0, 0, 0, 0, 0, 0, 0, 0, 0, 0, 0, 0, 0, 0, 0, 0, 0, 0, 0, 0, 0, 0, 0, 0, 0, 0, 0, 0, 9, 0, 0,
    0, 6, 0, 0, 0, 20, 255, 255, 255, 255, 20, 225, 180, 180, 255, 255, 255, 255, 126, 54, 28, 52,
    255, 255, 255, 255, 152, 17, 149, 208, 255, 255, 255, 255, 160, 57, 249, 240, 255, 255, 255,
    255, 193, 237, 53, 208, 255, 255, 255, 255, 201, 234, 10, 96, 255, 255, 255, 255, 210, 17, 14,
    240, 255, 255, 255, 255, 255, 134, 27, 80, 0, 0, 0, 0, 54, 139, 103, 64, 1, 2, 3, 2, 4, 3, 2,
    5, 2, 255, 255, 71, 76, 0, 0, 0, 0, 152, 204, 0, 0, 0, 0, 154, 176, 0, 4, 0, 0, 126, 144, 0,
    8, 0, 0, 140, 160, 0, 12, 0, 0, 168, 192, 0, 16, 76, 77, 84, 0, 43, 49, 49, 0, 43, 48, 57, 0,
    43, 49, 48, 0, 43, 49, 50, 0, 10, 60, 43, 49, 49, 62, 45, 49, 49, 10,
];

/// `Pacific/Kwajalein`.
#[verifier::opaque]
pub const PACIFIC_KWAJALEIN: [u8; 219] = [
    84, 90, 105, 102, 50, 0, 0, 0, 0, 0, 0, 0, 0, 0, 0, 0, 0, 0, 0, 0, 0, 0, 0, 0, 0, 0, 0, 0, 0,
    0, 0, 0, 0, 0, 0, 0, 0, 0, 0, 1, 0, 0, 0, 1, 0, 0, 0, 0, 0, 0, 0, 84, 90, 105, 102, 50, 0, 0,
    0, 0, 0, 0, 0, 0, 0, 0, 0, 0, 0, 0, 0, 0, 0, 0, 0, 0, 0, 0, 0, 0, 0, 0, 0, 0, 0, 0, 6, 0, 0,
    0, 6, 0, 0, 0, 24, 255, 255, 255, 255, 126, 54, 24, 32, 255, 255, 255, 255, 193, 237, 53, 208,
    255, 255, 255, 255, 201, 234, 10, 96, 255, 255, 255, 255, 207, 70, 129, 240, 255, 255, 255,
    255, 255, 134, 27, 80, 0, 0, 0, 0, 44, 118, 14, 64, 1, 2, 3, 1, 4, 5, 0, 0, 156, 224, 0, 0, 0,
    0, 154, 176, 0, 4, 0, 0, 140, 160, 0, 8, 0, 0, 126, 144, 0, 12, 255, 255, 87, 64, 0, 16, 0, 0,
    168, 192, 0, 20, 76, 77, 84, 0, 43, 49, 49, 0, 43, 49, 48, 0, 43, 48, 57, 0, 45, 49, 50, 0,
    43, 49, 50, 0, 10, 60, 43, 49, 50, 62, 45, 49, 50, 10,
];

/// `Pacific/Marquesas`.
#[verifier::opaque]
pub const PACIFIC_MARQUESAS: [u8; 139] = [
    84, 90, 105, 102, 50, 0, 0, 0, 0, 0, 0, 0, 0, 0, 0, 0, 0, 0, 0, 0, 0, 0, 0, 0, 0, 0, 0, 0, 0,
    0, 0, 0, 0, 0, 0, 0, 0, 0, 0, 1, 0, 0, 0, 1, 0, 0, 0, 0, 0, 0, 0, 84, 90, 105, 102, 50, 0, 0,
    0, 0, 0, 0, 0, 0, 0, 0, 0, 0, 0, 0, 0, 0, 0, 0, 0, 0, 0, 0, 0, 0, 0, 0, 0, 0, 0, 0, 1, 0, 0,
    0, 2, 0, 0, 0, 10, 255, 255, 255, 255, 148, 80, 76, 72, 1, 255, 255, 125, 56, 0, 0, 255, 255,
    122, 104, 0, 4, 76, 77, 84, 0, 45, 48, 57, 51, 48, 0, 10, 60, 45, 48, 57, 51, 48, 62, 57, 58,
    51, 48, 10,
];

/// `Pacific/Nauru`.
#[verifier::opaque]
pub const PACIFIC_NAURU: [u8; 183] = [
    84, 90, 105, 102, 50, 0, 0, 0, 0, 0, 0, 0, 0, 0, 0, 0, 0, 0, 0, 0, 0, 0, 0, 0, 0, 0, 0, 0, 0,
    0, 0, 0, 0, 0, 0, 0, 0, 0, 0, 1, 0, 0, 0, 1, 0, 0, 0, 0, 0, 0, 0, 84, 90, 105, 102, 50, 0, 0,
    0, 0, 0, 0, 0, 0, 0, 0, 0, 0, 0, 0, 0, 0, 0, 0, 0, 0, 0, 0, 0, 0, 0, 0, 0, 0, 0, 0, 4, 0, 0,
    0, 4, 0, 0, 0, 18, 255, 255, 255, 255, 163, 231, 43, 4, 255, 255, 255, 255, 204, 144, 233,
    200, 255, 255, 255, 255, 210, 67, 39, 240, 0, 0, 0, 0, 17, 33, 168, 232, 1, 2, 1, 3, 0, 0,
    156, 124, 0, 0, 0, 0, 161, 184, 0, 4, 0, 0, 126, 144, 0, 10, 0, 0, 168, 192, 0, 14, 76, 77,
    84, 0, 43, 49, 49, 51, 48, 0, 43, 48, 57, 0, 43, 49, 50, 0, 10, 60, 43, 49, 50, 62, 45, 49,
    50, 10,
];

/// `Pacific/Niue`.
#[verifier::opaque]
pub const PACIFIC_NIUE: [u8; 154] = [
    84, 90, 105, 102, 50, 0, 0, 0, 0, 0, 0, 0, 0, 0, 0, 0, 0, 0, 0, 0, 0, 0, 0, 0, 0, 0, 0, 0, 0,
    0, 0, 0, 0, 0, 0, 0, 0, 0, 0, 1, 0, 0, 0, 1, 0, 0, 0, 0, 0, 0, 0, 84, 90, 105, 102, 50, 0, 0,
    0, 0, 0, 0, 0, 0, 0, 0, 0, 0, 0, 0, 0, 0, 0, 0, 0, 0, 0, 0, 0, 0, 0, 0, 0, 0, 0, 0, 2, 0, 0,
    0, 3, 0, 0, 0, 14, 255, 255, 255, 255, 223, 161, 106, 76, 255, 255, 255, 255, 245, 166, 184,
    96, 1, 2, 255, 255, 96, 180, 0, 0, 255, 255, 96, 160, 0, 4, 255, 255, 101, 80, 0, 10, 76, 77,
    84, 0, 45, 49, 49, 50, 48, 0, 45, 49, 49, 0, 10, 60, 45, 49, 49, 62, 49, 49, 10,
];

/// `Pacific/Norfolk`.
#[verifier::opaque]
pub const PACIFIC_NORFOLK: [u8; 237] = [
    84, 90, 105, 102, 50, 0, 0, 0, 0, 0, 0, 0, 0, 0, 0, 0, 0, 0, 0, 0, 0, 0, 0, 0, 0, 0, 0, 0, 0,
    0, 0, 0, 0, 0, 0, 0, 0, 0, 0, 1, 0, 0, 0, 1, 0, 0, 0, 0, 0, 0, 0, 84, 90, 105, 102, 50, 0, 0,
    0, 0, 0, 0, 0, 0, 0, 0, 0, 0, 0, 0, 0, 0, 0, 0, 0, 0, 0, 0, 0, 0, 0, 0, 0, 0, 0, 0, 6, 0, 0,
    0, 5, 0, 0, 0, 26, 255, 255, 255, 255, 126, 54, 23, 136, 255, 255, 255, 255, 220, 65, 248,
    128, 0, 0, 0, 0, 9, 15, 202, 104, 0, 0, 0, 0, 9, 181, 231, 104, 0, 0, 0, 0, 86, 15, 230, 104,
    0, 0, 0, 0, 93, 24, 178, 80, 1, 2, 3, 2, 4, 4, 0, 0, 157, 120, 0, 0, 0, 0, 157, 128, 0, 4, 0,
    0, 161, 184, 0, 10, 0, 0, 175, 200, 1, 16, 0, 0, 154, 176, 0, 22, 76, 77, 84, 0, 43, 49, 49,
    49, 50, 0, 43, 49, 49, 51, 48, 0, 43, 49, 50, 51, 48, 0, 43, 49, 49, 0, 10, 60, 43, 49, 49,
    62, 45, 49, 49, 60, 43, 49, 50, 62, 44, 77, 49, 48, 46, 49, 46, 48, 44, 77, 52, 46, 49, 46,
    48, 47, 51, 10,
];

/// `Pacific/Noumea`.
#[verifier::opaque]
pub const PACIFIC_NOUMEA: [u8; 198] = [
    84, 90, 105, 102, 50, 0, 0, 0, 0, 0, 0, 0, 0, 0, 0, 0, 0, 0, 0, 0, 0, 0, 0, 0, 0, 0, 0, 0, 0,
    0, 0, 0, 0, 0, 0, 0, 0, 0, 0, 1, 0, 0, 0, 1, 0, 0, 0, 0, 0, 0, 0, 84, 90, 105, 102, 50, 0, 0,
    0, 0, 0, 0, 0, 0, 0, 0, 0, 0, 0, 0, 0, 0, 0, 0, 0, 0, 0, 0, 0, 0, 0, 0, 0, 0, 0, 0, 7, 0, 0,
    0, 3, 0, 0, 0, 12, 255, 255, 255, 255, 146, 245, 196, 116, 0, 0, 0, 0, 14, 230, 186, 80, 0, 0,
    0, 0, 15, 86, 187, 192, 0, 0, 0, 0, 16, 198, 156, 80, 0, 0, 0, 0, 17, 55, 239, 64, 0, 0, 0, 0,
    50, 160, 75, 240, 0, 0, 0, 0, 51, 24, 68, 112, 2, 1, 2, 1, 2, 1, 2, 0, 0, 156, 12, 0, 0, 0, 0,
    168, 192, 1, 4, 0, 0, 154, 176, 0, 8, 76, 77, 84, 0, 43, 49, 50, 0, 43, 49, 49, 0, 10, 60, 43,
    49, 49, 62, 45, 49, 49, 10,
];

/// `Pacific/Pago_Pago`.
#[verifier::opaque]
pub const PACIFIC_PAGO_PAGO: [u8; 146] = [
    84, 90, 105, 102, 50, 0, 0, 0, 0, 0, 0, 0, 0, 0, 0, 0, 0, 0, 0, 0, 0, 0, 0, 0, 0, 0, 0, 0, 0,
    0, 0, 0, 0, 0, 0, 0, 0, 0, 0, 1, 0, 0, 0, 1, 0, 0, 0, 0, 0, 0, 0, 84, 90, 105, 102, 50, 0, 0,
    0, 0, 0, 0, 0, 0, 0, 0, 0, 0, 0, 0, 0, 0, 0, 0, 0, 0, 0, 0, 0, 0, 0, 0, 0, 0, 0, 0, 2, 0, 0,
    0, 3, 0, 0, 0, 8, 255, 255, 255, 255, 110, 61, 200, 8, 255, 255, 255, 255, 145, 5, 251, 8, 1,
    2, 0, 0, 177, 120, 0, 0, 255, 255, 95, 248, 0, 0, 255, 255, 101, 80, 0, 4, 76, 77, 84, 0, 83,
    83, 84, 0, 10, 83, 83, 84, 49, 49, 10,
];

/// `Pacific/Palau`.
#[verifier::opaque]
pub const PACIFIC_PALAU: [u8; 148] = [
    84, 90, 105, 102, 50, 0, 0, 0, 0, 0, 0, 0, 0, 0, 0, 0, 0, 0, 0, 0, 0, 0, 0, 0, 0, 0, 0, 0, 0,
    0, 0, 0, 0, 0, 0, 0, 0, 0, 0, 1, 0, 0, 0, 1, 0, 0, 0, 0, 0, 0, 0, 84, 90, 105, 102, 50, 0, 0,
    0, 0, 0, 0, 0, 0, 0, 0, 0, 0, 0, 0, 0, 0, 0, 0, 0, 0, 0, 0, 0, 0, 0, 0, 0, 0, 0, 0, 2, 0, 0,
    0, 3, 0, 0, 0, 8, 255, 255, 255, 255, 20, 225, 207, 108, 255, 255, 255, 255, 126, 54, 54, 236,
    1, 2, 255, 255, 44, 148, 0, 0, 0, 0, 126, 20, 0, 0, 0, 0, 126, 144, 0, 4, 76, 77, 84, 0, 43,
    48, 57, 0, 10, 60, 43, 48, 57, 62, 45, 57, 10,
];

/// `Pacific/Pitcairn`.
#[verifier::opaque]
pub const PACIFIC_PITCAIRN: [u8; 153] = [
    84, 90, 105, 102, 50, 0, 0, 0, 0, 0, 0, 0, 0, 0, 0, 0, 0, 0, 0, 0, 0, 0, 0, 0, 0, 0, 0, 0, 0,
    0, 0, 0, 0, 0, 0, 0, 0, 0, 0, 1, 0, 0, 0, 1, 0, 0, 0, 0, 0, 0, 0, 84, 90, 105, 102, 50, 0, 0,
    0, 0, 0, 0, 0, 0, 0, 0, 0, 0, 0, 0, 0, 0, 0, 0, 0, 0, 0, 0, 0, 0, 0, 0, 0, 0, 0, 0, 2, 0, 0,
    0, 3, 0, 0, 0, 14, 255, 255, 255, 255, 126, 55, 46, 244, 0, 0, 0, 0, 53, 68, 66, 8, 1, 2, 255,
    255, 134, 12, 0, 0, 255, 255, 136, 120, 0, 4, 255, 255, 143, 128, 0, 10, 76, 77, 84, 0, 45,
    48, 56, 51, 48, 0, 45, 48, 56, 0, 10, 60, 45, 48, 56, 62, 56, 10,
];

/// `Pacific/Port_Moresby`.
#[verifier::opaque]
pub const PACIFIC_PORT_MORESBY: [u8; 154] = [
    84, 90, 105, 102, 50, 0, 0, 0, 0, 0, 0, 0, 0, 0, 0, 0, 0, 0, 0, 0, 0, 0, 0, 0, 0, 0, 0, 0, 0,
    0, 0, 0, 0, 0, 0, 0, 0, 0, 0, 1, 0, 0, 0, 1, 0, 0, 0, 0, 0, 0, 0, 84, 90, 105, 102, 50, 0, 0,
    0, 0, 0, 0, 0, 0, 0, 0, 0, 0, 0, 0, 0, 0, 0, 0, 0, 0, 0, 0, 0, 0, 0, 0, 0, 0, 0, 0, 2, 0, 0,
    0, 3, 0, 0, 0, 13, 255, 255, 255, 255, 86, 182, 90, 8, 255, 255, 255, 255, 114, 237, 164, 144,
    1, 2, 0, 0, 137, 248, 0, 0, 0, 0, 137, 240, 0, 4, 0, 0, 140, 160, 0, 9, 76, 77, 84, 0, 80, 77,
    77, 84, 0, 43, 49, 48, 0, 10, 60, 43, 49, 48, 62, 45, 49, 48, 10,
];

/// `Pacific/Rarotonga`.
#[verifier::opaque]
pub const PACIFIC_RAROTONGA: [u8; 406] = [
    84, 90, 105, 102, 50, 0, 0, 0, 0, 0, 0, 0, 0, 0, 0, 0, 0, 0, 0, 0, 0, 0, 0, 0, 0, 0, 0, 0, 0,
    0, 0, 0, 0, 0, 0, 0, 0, 0, 0, 1, 0, 0, 0, 1, 0, 0, 0, 0, 0, 0, 0, 84, 90, 105, 102, 50, 0, 0,
    0, 0, 0, 0, 0, 0, 0, 0, 0, 0, 0, 0, 0, 0, 0, 0, 0, 0, 0, 0, 0, 0, 0, 0, 0, 0, 0, 0, 28, 0, 0,
    0, 5, 0, 0, 0, 20, 255, 255, 255, 255, 124, 76, 220, 200, 255, 255, 255, 255, 223, 161, 96,
    200, 0, 0, 0, 0, 16, 172, 27, 40, 0, 0, 0, 0, 17, 63, 181, 24, 0, 0, 0, 0, 18, 121, 129, 32,
    0, 0, 0, 0, 19, 31, 151, 24, 0, 0, 0, 0, 20, 89, 99, 32, 0, 0, 0, 0, 20, 255, 121, 24, 0, 0,
    0, 0, 22, 57, 69, 32, 0, 0, 0, 0, 22, 232, 149, 152, 0, 0, 0, 0, 24, 34, 97, 160, 0, 0, 0, 0,
    24, 200, 119, 152, 0, 0, 0, 0, 26, 2, 67, 160, 0, 0, 0, 0, 26, 168, 89, 152, 0, 0, 0, 0, 27,
    226, 37, 160, 0, 0, 0, 0, 28, 136, 59, 152, 0, 0, 0, 0, 29, 194, 7, 160, 0, 0, 0, 0, 30, 104,
    29, 152, 0, 0, 0, 0, 31, 161, 233, 160, 0, 0, 0, 0, 32, 71, 255, 152, 0, 0, 0, 0, 33, 129,
    203, 160, 0, 0, 0, 0, 34, 49, 28, 24, 0, 0, 0, 0, 35, 106, 232, 32, 0, 0, 0, 0, 36, 16, 254,
    24, 0, 0, 0, 0, 37, 74, 202, 32, 0, 0, 0, 0, 37, 240, 224, 24, 0, 0, 0, 0, 39, 42, 172, 32, 0,
    0, 0, 0, 39, 208, 194, 24, 1, 2, 4, 3, 4, 3, 4, 3, 4, 3, 4, 3, 4, 3, 4, 3, 4, 3, 4, 3, 4, 3,
    4, 3, 4, 3, 4, 3, 0, 0, 187, 184, 0, 0, 255, 255, 106, 56, 0, 0, 255, 255, 108, 88, 0, 4, 255,
    255, 115, 96, 0, 10, 255, 255, 122, 104, 1, 14, 76, 77, 84, 0, 45, 49, 48, 51, 48, 0, 45, 49,
    48, 0, 45, 48, 57, 51, 48, 0, 10, 60, 45, 49, 48, 62, 49, 48, 10,
];

/// `Pacific/Tahiti`.
#[verifier::opaque]
pub const PACIFIC_TAHITI: [u8; 133] = [
    84, 90, 105, 102, 50, 0, 0, 0, 0, 0, 0, 0, 0, 0, 0, 0, 0, 0, 0, 0, 0, 0, 0, 0, 0, 0, 0, 0, 0,
    0, 0, 0, 0, 0, 0, 0, 0, 0, 0, 1, 0, 0, 0, 1, 0, 0, 0, 0, 0, 0, 0, 84, 90, 105, 102, 50, 0, 0,
    0, 0, 0, 0, 0, 0, 0, 0, 0, 0, 0, 0, 0, 0, 0, 0, 0, 0, 0, 0, 0, 0, 0, 0, 0, 0, 0, 0, 1, 0, 0,
    0, 2, 0, 0, 0, 8, 255, 255, 255, 255, 148, 80, 85, 184, 1, 255, 255, 115, 200, 0, 0, 255, 255,
    115, 96, 0, 4, 76, 77, 84, 0, 45, 49, 48, 0, 10, 60, 45, 49, 48, 62, 49, 48, 10,
];

/// `Pacific/Tarawa`.
#[verifier::opaque]
pub const PACIFIC_TARAWA: [u8; 134] = [
    84, 90, 105, 102, 50, 0, 0, 0, 0, 0, 0, 0, 0, 0, 0, 0, 0, 0, 0, 0, 0, 0, 0, 0, 0, 0, 0, 0, 0,
    0, 0, 0, 0, 0, 0, 0, 0, 0, 0, 1, 0, 0, 0, 1, 0, 0, 0, 0, 0, 0, 0, 84, 90, 105, 102, 50, 0, 0,
    0, 0, 0, 0, 0, 0, 0, 0, 0, 0, 0, 0, 0, 0, 0, 0, 0, 0, 0, 0, 0, 0, 0, 0, 0, 0, 0, 0, 1, 0, 0,
    0, 2, 0, 0, 0, 8, 255, 255, 255, 255, 126, 54, 18, 204, 1, 0, 0, 162, 52, 0, 0, 0, 0, 168,
    192, 0, 4, 76, 77, 84, 0, 43, 49, 50, 0, 10, 60, 43, 49, 50, 62, 45, 49, 50, 10,
];

/// `Pacific/Tongatapu`.
#[verifier::opaque]
pub const PACIFIC_TONGATAPU: [u8; 237] = [
    84, 90, 105, 102, 50, 0, 0, 0, 0, 0, 0, 0, 0, 0, 0, 0, 0, 0, 0, 0, 0, 0, 0, 0, 0, 0, 0, 0, 0,
    0, 0, 0, 0, 0, 0, 0, 0, 0, 0, 1, 0, 0, 0, 1, 0, 0, 0, 0, 0, 0, 0, 84, 90, 105, 102, 50, 0, 0,
    0, 0, 0, 0, 0, 0, 0, 0, 0, 0, 0, 0, 0, 0, 0, 0, 0, 0, 0, 0, 0, 0, 0, 0, 0, 0, 0, 0, 10, 0, 0,
    0, 4, 0, 0, 0, 18, 255, 255, 255, 255, 210, 69, 156, 64, 255, 255, 255, 255, 239, 17, 224, 16,
    0, 0, 0, 0, 55, 251, 71, 208, 0, 0, 0, 0, 56, 211, 125, 208, 0, 0, 0, 0, 58, 4, 8, 80, 0, 0,
    0, 0, 58, 114, 184, 64, 0, 0, 0, 0, 59, 227, 234, 80, 0, 0, 0, 0, 60, 82, 154, 64, 0, 0, 0, 0,
    88, 29, 215, 208, 0, 0, 0, 0, 88, 122, 32, 208, 1, 2, 3, 2, 3, 2, 3, 2, 3, 2, 0, 0, 173, 64,
    0, 0, 0, 0, 173, 112, 0, 4, 0, 0, 182, 208, 0, 10, 0, 0, 196, 224, 1, 14, 76, 77, 84, 0, 43,
    49, 50, 50, 48, 0, 43, 49, 51, 0, 43, 49, 52, 0, 10, 60, 43, 49, 51, 62, 45, 49, 51, 10,
];

} // verus!
