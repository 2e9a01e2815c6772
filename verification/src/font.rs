use vstd::prelude::*;

verus! {

/// Width of one glyph cell, in pixels.
pub const FONT_X_SIZE: usize = 17;

/// Height of one glyph cell, in pixels.
pub const FONT_Y_SIZE: usize = 24;

/// Number of glyphs in the font: the printable ASCII range 32..=127.
pub const FONT_GLYPHS: usize = 96;

/// The bitmapped font, one `u32` per scanline, `FONT_Y_SIZE` scanlines per glyph.
/// Glyph `g` covers entries `g * FONT_Y_SIZE .. (g + 1) * FONT_Y_SIZE`; bit `i` of a
/// scanline is the pixel in column `i` (ink when set, paper when clear).
pub const FONT: [u32; 2304] = [
    0, 0, 0, 0, 0, 0, 0, 0, 0, 0, 0, 0, 0, 0, 0, 0, 0, 0, 0, 0, 0, 0, 0, 0,
    0, 0, 448, 448, 448, 448, 448, 448, 448, 448, 448, 128, 128, 0, 0, 448, 448, 0, 0, 0, 0, 0, 0, 0,
    0, 0, 0, 3696, 3696, 3696, 1056, 1056, 1056, 1056, 0, 0, 0, 0, 0, 0, 0, 0, 0, 0, 0, 0, 0, 0,
    0, 0, 1632, 1632, 1632, 1632, 1632, 8188, 8188, 1632, 816, 8188, 8188, 816, 816, 816, 816, 816, 0, 0, 0, 0, 0, 0,
    0, 384, 384, 3552, 4080, 3608, 3608, 56, 496, 2016, 3840, 3096, 3128, 3640, 2040, 984, 384, 384, 384, 384, 0, 0, 0, 0,
    0, 0, 480, 1008, 1848, 1560, 1560, 1848, 8176, 2016, 4088, 7392, 6240, 6240, 7392, 4032, 1920, 0, 0, 0, 0, 0, 0, 0,
    0, 0, 0, 0, 4032, 4064, 1584, 48, 48, 96, 224, 14832, 16312, 3864, 3608, 16368, 15328, 0, 0, 0, 0, 0, 0, 0,
    0, 0, 0, 448, 448, 448, 128, 128, 128, 128, 0, 0, 0, 0, 0, 0, 0, 0, 0, 0, 0, 0, 0, 0,
    0, 0, 6144, 7168, 3584, 3840, 1792, 1792, 896, 896, 896, 896, 896, 896, 1792, 1792, 3584, 3584, 7168, 6144, 0, 0, 0, 0,
    0, 0, 24, 56, 112, 112, 224, 224, 448, 448, 448, 448, 448, 448, 224, 224, 240, 112, 56, 24, 0, 0, 0, 0,
    0, 0, 384, 384, 384, 7608, 8184, 2016, 960, 960, 1632, 1632, 0, 0, 0, 0, 0, 0, 0, 0, 0, 0, 0, 0,
    0, 0, 0, 0, 384, 384, 384, 384, 384, 16380, 16380, 384, 384, 384, 384, 384, 0, 0, 0, 0, 0, 0, 0, 0,
    0, 0, 0, 0, 0, 0, 0, 0, 0, 0, 0, 0, 0, 0, 1792, 768, 896, 384, 384, 192, 192, 0, 0, 0,
    0, 0, 0, 0, 0, 0, 0, 0, 0, 8184, 8184, 0, 0, 0, 0, 0, 0, 0, 0, 0, 0, 0, 0, 0,
    0, 0, 0, 0, 0, 0, 0, 0, 0, 0, 0, 0, 0, 0, 960, 960, 960, 0, 0, 0, 0, 0, 0, 0,
    6144, 6144, 7168, 3072, 3584, 1536, 1536, 768, 768, 384, 384, 192, 192, 96, 96, 112, 48, 56, 24, 24, 0, 0, 0, 0,
    0, 0, 960, 2016, 3120, 3120, 6168, 6168, 6168, 6168, 6168, 6168, 6168, 3120, 3120, 2016, 960, 0, 0, 0, 0, 0, 0, 0,
    0, 0, 256, 480, 504, 440, 384, 384, 384, 384, 384, 384, 384, 384, 384, 8184, 8184, 0, 0, 0, 0, 0, 0, 0,
    0, 0, 992, 4088, 3100, 6156, 6156, 6144, 3072, 1536, 896, 448, 96, 48, 24, 8188, 8188, 0, 0, 0, 0, 0, 0, 0,
    0, 0, 960, 2032, 3632, 3072, 3072, 1536, 960, 1984, 3584, 6144, 6144, 6144, 7192, 4088, 1008, 0, 0, 0, 0, 0, 0, 0,
    0, 0, 1792, 1920, 1920, 1728, 1632, 1632, 1584, 1584, 1560, 1548, 8188, 8188, 1536, 8128, 8128, 0, 0, 0, 0, 0, 0, 0,
    0, 0, 4088, 4088, 24, 24, 24, 984, 4088, 3128, 6144, 6144, 6144, 6144, 3084, 4092, 1008, 0, 0, 0, 0, 0, 0, 0,
    0, 0, 7936, 8128, 224, 112, 48, 24, 984, 4088, 3128, 6168, 6168, 6168, 7216, 4080, 1984, 0, 0, 0, 0, 0, 0, 0,
    0, 0, 8184, 8184, 6168, 7192, 3072, 3072, 3584, 1536, 1536, 1792, 768, 768, 896, 384, 384, 0, 0, 0, 0, 0, 0, 0,
    0, 0, 2016, 4080, 7224, 6168, 6168, 3120, 2016, 2016, 3120, 6168, 6168, 6168, 7224, 4080, 2016, 0, 0, 0, 0, 0, 0, 0,
    0, 0, 992, 4080, 3128, 6168, 6168, 6168, 7216, 8176, 7104, 6144, 3072, 3584, 1792, 1016, 248, 0, 0, 0, 0, 0, 0, 0,
    0, 0, 0, 0, 0, 0, 960, 960, 960, 0, 0, 0, 0, 0, 960, 960, 960, 0, 0, 0, 0, 0, 0, 0,
    0, 0, 0, 0, 0, 0, 3840, 3840, 3840, 0, 0, 0, 0, 1792, 896, 384, 384, 192, 64, 0, 0, 0, 0, 0,
    0, 0, 0, 0, 14336, 15360, 3840, 960, 240, 60, 15, 60, 240, 960, 3840, 15360, 14336, 0, 0, 0, 0, 0, 0, 0,
    0, 0, 0, 0, 0, 0, 0, 16382, 16382, 0, 0, 16382, 16382, 0, 0, 0, 0, 0, 0, 0, 0, 0, 0, 0,
    0, 0, 0, 0, 14, 30, 120, 480, 1920, 7680, 30720, 7680, 1920, 480, 120, 30, 14, 0, 0, 0, 0, 0, 0, 0,
    0, 0, 0, 992, 2032, 3608, 3096, 3096, 3584, 1792, 960, 448, 192, 0, 0, 224, 224, 0, 0, 0, 0, 0, 0, 0,
    0, 0, 1984, 4064, 7280, 6192, 7704, 7960, 7064, 6552, 6552, 6552, 7960, 7704, 24, 48, 6256, 8160, 1984, 0, 0, 0, 0, 0,
    0, 0, 0, 504, 1016, 896, 1728, 1728, 3168, 3168, 3120, 8176, 8184, 12312, 12300, 65087, 65087, 0, 0, 0, 0, 0, 0, 0,
    0, 0, 0, 2046, 4094, 7192, 6168, 6168, 7192, 4088, 8184, 14360, 12312, 12312, 12312, 8190, 4094, 0, 0, 0, 0, 0, 0, 0,
    0, 0, 0, 14272, 16368, 14392, 12312, 12300, 12, 12, 12, 12, 12, 12312, 14392, 8176, 4032, 0, 0, 0, 0, 0, 0, 0,
    0, 0, 0, 1022, 4094, 7192, 6168, 12312, 12312, 12312, 12312, 12312, 12312, 6168, 7192, 4094, 2046, 0, 0, 0, 0, 0, 0, 0,
    0, 0, 0, 8190, 8190, 6168, 6168, 6552, 408, 504, 504, 408, 6552, 6168, 6168, 8190, 8190, 0, 0, 0, 0, 0, 0, 0,
    0, 0, 0, 16380, 16380, 12336, 12336, 13104, 816, 1008, 1008, 816, 816, 48, 48, 1020, 1020, 0, 0, 0, 0, 0, 0, 0,
    0, 0, 0, 14272, 16368, 14392, 12312, 12300, 12, 12, 32524, 32524, 12300, 12316, 14392, 16368, 4032, 0, 0, 0, 0, 0, 0, 0,
    0, 0, 0, 32382, 32382, 6168, 6168, 6168, 6168, 8184, 8184, 6168, 6168, 6168, 6168, 32382, 32382, 0, 0, 0, 0, 0, 0, 0,
    0, 0, 0, 8184, 8184, 384, 384, 384, 384, 384, 384, 384, 384, 384, 384, 8184, 8184, 0, 0, 0, 0, 0, 0, 0,
    0, 0, 0, 32736, 32736, 3072, 3072, 3072, 3072, 3072, 3084, 3084, 3084, 3084, 1548, 2044, 496, 0, 0, 0, 0, 0, 0, 0,
    0, 0, 0, 31998, 31998, 3096, 1560, 792, 408, 472, 1016, 1848, 3608, 3096, 7192, 63742, 63742, 0, 0, 0, 0, 0, 0, 0,
    0, 0, 0, 510, 510, 48, 48, 48, 48, 48, 48, 12336, 12336, 12336, 12336, 16382, 16382, 0, 0, 0, 0, 0, 0, 0,
    0, 0, 0, 61455, 63519, 14364, 15420, 15420, 13932, 13932, 13260, 13260, 12684, 12300, 12300, 65151, 65151, 0, 0, 0, 0, 0, 0, 0,
    0, 0, 0, 32542, 32542, 6200, 6264, 6392, 6360, 6616, 7064, 6936, 7960, 7704, 7192, 6398, 6398, 0, 0, 0, 0, 0, 0, 0,
    0, 0, 0, 960, 4080, 7224, 6168, 14364, 12300, 12300, 12300, 12300, 14364, 6168, 7224, 4080, 960, 0, 0, 0, 0, 0, 0, 0,
    0, 0, 0, 4092, 8188, 14384, 12336, 12336, 12336, 6192, 8176, 2032, 48, 48, 48, 1020, 1020, 0, 0, 0, 0, 0, 0, 0,
    0, 0, 0, 960, 4080, 7224, 6168, 14364, 12300, 12300, 12300, 12300, 14364, 6168, 7224, 4080, 992, 13280, 16368, 7216, 0, 0, 0, 0,
    0, 0, 0, 2046, 4094, 7192, 6168, 6168, 7192, 4088, 1016, 1816, 3608, 3096, 7192, 30974, 28926, 0, 0, 0, 0, 0, 0, 0,
    0, 0, 0, 7136, 8176, 7224, 6168, 6168, 120, 1008, 4032, 7680, 6168, 6168, 7224, 4088, 2008, 0, 0, 0, 0, 0, 0, 0,
    0, 0, 0, 16380, 16380, 12684, 12684, 12684, 12684, 384, 384, 384, 384, 384, 384, 4080, 4080, 0, 0, 0, 0, 0, 0, 0,
    0, 0, 0, 32382, 32382, 6168, 6168, 6168, 6168, 6168, 6168, 6168, 6168, 6168, 3120, 4080, 960, 0, 0, 0, 0, 0, 0, 0,
    0, 0, 0, 65278, 65278, 12312, 6192, 6192, 6192, 3168, 3168, 1728, 1728, 1728, 896, 896, 256, 0, 0, 0, 0, 0, 0, 0,
    0, 0, 0, 130175, 130175, 24588, 24588, 24844, 13208, 13208, 14040, 14040, 15992, 7280, 7280, 6192, 6192, 0, 0, 0, 0, 0, 0, 0,
    0, 0, 0, 32382, 32382, 6168, 3120, 1632, 960, 384, 384, 960, 1632, 3120, 6168, 32382, 32382, 0, 0, 0, 0, 0, 0, 0,
    0, 0, 0, 32318, 32318, 6168, 3120, 1632, 1632, 960, 384, 384, 384, 384, 384, 4080, 4080, 0, 0, 0, 0, 0, 0, 0,
    0, 0, 0, 8184, 8184, 6168, 3096, 1560, 792, 384, 192, 6240, 6192, 6168, 6156, 8188, 8188, 0, 0, 0, 0, 0, 0, 0,
    0, 0, 3968, 3968, 384, 384, 384, 384, 384, 384, 384, 384, 384, 384, 384, 384, 384, 384, 3968, 3968, 0, 0, 0, 0,
    24, 24, 56, 48, 112, 96, 96, 192, 192, 384, 384, 768, 768, 1536, 1536, 3584, 3072, 7168, 6144, 6144, 0, 0, 0, 0,
    0, 0, 496, 496, 384, 384, 384, 384, 384, 384, 384, 384, 384, 384, 384, 384, 384, 384, 496, 496, 0, 0, 0, 0,
    0, 256, 896, 1984, 3808, 3168, 6192, 12312, 8200, 0, 0, 0, 0, 0, 0, 0, 0, 0, 0, 0, 0, 0, 0, 0,
    0, 0, 0, 0, 0, 0, 0, 0, 0, 0, 0, 0, 0, 0, 0, 0, 0, 0, 0, 0, 0, 0, 65535, 65535,
    0, 192, 448, 1792, 1536, 0, 0, 0, 0, 0, 0, 0, 0, 0, 0, 0, 0, 0, 0, 0, 0, 0, 0, 0,
    0, 0, 0, 0, 0, 0, 1008, 2040, 3072, 3072, 4064, 4088, 3100, 3084, 3596, 16376, 15856, 0, 0, 0, 0, 0, 0, 0,
    0, 0, 30, 30, 24, 24, 2008, 8184, 6200, 12312, 12312, 12312, 12312, 12312, 6200, 8190, 2014, 0, 0, 0, 0, 0, 0, 0,
    0, 0, 0, 0, 0, 0, 14272, 16368, 14392, 12316, 12300, 12, 12, 12316, 14392, 8176, 4032, 0, 0, 0, 0, 0, 0, 0,
    0, 0, 7680, 7680, 6144, 6144, 7136, 8184, 7192, 6156, 6156, 6156, 6156, 6156, 7192, 32760, 31712, 0, 0, 0, 0, 0, 0, 0,
    0, 0, 0, 0, 0, 0, 2016, 8184, 6168, 12300, 16380, 16380, 12, 12, 12312, 16376, 4064, 0, 0, 0, 0, 0, 0, 0,
    0, 0, 16256, 16320, 96, 96, 8188, 8188, 96, 96, 96, 96, 96, 96, 96, 4092, 4092, 0, 0, 0, 0, 0, 0, 0,
    0, 0, 0, 0, 0, 0, 31712, 32760, 7192, 6156, 6156, 6156, 6156, 6156, 7192, 8184, 7136, 6144, 6144, 7168, 4080, 1008, 0, 0,
    0, 0, 30, 30, 24, 24, 2008, 4088, 7224, 6168, 6168, 6168, 6168, 6168, 6168, 32382, 32382, 0, 0, 0, 0, 0, 0, 0,
    0, 0, 384, 384, 0, 0, 504, 504, 384, 384, 384, 384, 384, 384, 384, 16380, 16380, 0, 0, 0, 0, 0, 0, 0,
    0, 0, 768, 768, 0, 0, 4088, 4088, 3072, 3072, 3072, 3072, 3072, 3072, 3072, 3072, 3072, 3072, 3072, 3584, 2040, 504, 0, 0,
    0, 0, 60, 60, 48, 48, 7984, 7984, 816, 432, 496, 240, 496, 944, 1840, 15932, 15932, 0, 0, 0, 0, 0, 0, 0,
    0, 0, 504, 504, 384, 384, 384, 384, 384, 384, 384, 384, 384, 384, 384, 16380, 16380, 0, 0, 0, 0, 0, 0, 0,
    0, 0, 0, 0, 0, 0, 7919, 16383, 13212, 12684, 12684, 12684, 12684, 12684, 12684, 63423, 63423, 0, 0, 0, 0, 0, 0, 0,
    0, 0, 0, 0, 0, 0, 2014, 4094, 7224, 6168, 6168, 6168, 6168, 6168, 6168, 32382, 32382, 0, 0, 0, 0, 0, 0, 0,
    0, 0, 0, 0, 0, 0, 960, 4080, 7224, 14364, 12300, 12300, 12300, 14364, 7224, 4080, 960, 0, 0, 0, 0, 0, 0, 0,
    0, 0, 0, 0, 0, 0, 2014, 8190, 6200, 12312, 12312, 12312, 12312, 12312, 6200, 8184, 2008, 24, 24, 24, 254, 254, 0, 0,
    0, 0, 0, 0, 0, 0, 31712, 32760, 7192, 6156, 6156, 6156, 6156, 6156, 7192, 8184, 7136, 6144, 6144, 6144, 32512, 32512, 0, 0,
    0, 0, 0, 0, 0, 0, 7804, 16252, 13280, 224, 96, 96, 96, 96, 96, 4092, 4092, 0, 0, 0, 0, 0, 0, 0,
    0, 0, 0, 0, 0, 0, 8160, 8176, 6168, 6168, 504, 4080, 7936, 6168, 7192, 4088, 2040, 0, 0, 0, 0, 0, 0, 0,
    0, 0, 48, 48, 48, 48, 4092, 4092, 48, 48, 48, 48, 48, 48, 14384, 16352, 4032, 0, 0, 0, 0, 0, 0, 0,
    0, 0, 0, 0, 0, 0, 7710, 7710, 6168, 6168, 6168, 6168, 6168, 6168, 7192, 32752, 31712, 0, 0, 0, 0, 0, 0, 0,
    0, 0, 0, 0, 0, 0, 31806, 31806, 6168, 6168, 3120, 3120, 1632, 1632, 2016, 960, 960, 0, 0, 0, 0, 0, 0, 0,
    0, 0, 0, 0, 0, 0, 15390, 15390, 6284, 6604, 6604, 3416, 3960, 3960, 1592, 1584, 1584, 0, 0, 0, 0, 0, 0, 0,
    0, 0, 0, 0, 0, 0, 15996, 15996, 3120, 1632, 960, 384, 960, 1632, 3120, 15996, 15996, 0, 0, 0, 0, 0, 0, 0,
    0, 0, 0, 0, 0, 0, 63614, 63614, 12312, 6192, 6192, 3168, 3168, 1728, 1984, 896, 768, 384, 384, 192, 1020, 1020, 0, 0,
    0, 0, 0, 0, 0, 0, 8184, 8184, 3096, 1560, 768, 384, 192, 6240, 6192, 8184, 8184, 0, 0, 0, 0, 0, 0, 0,
    0, 0, 1792, 1920, 384, 384, 384, 384, 384, 384, 448, 224, 448, 384, 384, 384, 384, 384, 1920, 1792, 0, 0, 0, 0,
    0, 0, 384, 384, 384, 384, 384, 384, 384, 384, 384, 384, 384, 384, 384, 384, 384, 384, 384, 384, 0, 0, 0, 0,
    0, 0, 224, 480, 384, 384, 384, 384, 384, 384, 896, 1792, 896, 384, 384, 384, 384, 384, 480, 224, 0, 0, 0, 0,
    0, 0, 0, 0, 0, 0, 0, 0, 112, 6392, 7644, 3980, 1792, 0, 0, 0, 0, 0, 0, 0, 0, 0, 0, 0,
    16777088, 16777088, 16777088, 16777088, 16777088, 16777088, 16777088, 16777088, 16777088, 16777088, 16777088, 16777088, 16777088, 16777088, 16777088, 16777088, 16777088, 16777088, 16777088, 16777088, 16777088, 16777088, 16777088, 16777088,
];

/// The glyph that shows byte `c`: printable ASCII (32..=127) shows itself, any other byte
/// shows a question mark.
pub open spec fn glyph_of(c: u8) -> int {
    if c < 32 || c > 127 {
        63 - 32
    } else {
        c - 32
    }
}

/// Whether column `column` of scanline `scanline` of the glyph for byte `c` is inked.
pub open spec fn glyph_inked(c: u8, scanline: int, column: int) -> bool {
    (FONT@[glyph_of(c) * FONT_Y_SIZE + scanline] >> (column as u32)) & 1 != 0
}

/// The glyph that shows byte `c`.
pub fn glyph_index(c: u8) -> (g: usize)
    ensures
        g == glyph_of(c),
        g < FONT_GLYPHS,
        32 <= c <= 127 ==> g == c - 32,
        c < 32 || c > 127 ==> g == '?' as u8 - 32,
{
    if c < 32 || c > 127 {
        63 - 32
    } else {
        c as usize - 32
    }
}

/// Scanline `scanline` of the glyph for byte `c`, one bit per column.
pub fn glyph_scanline(c: u8, scanline: usize) -> (bits: u32)
    requires
        scanline < FONT_Y_SIZE,
    ensures
        bits == FONT@[glyph_of(c) * FONT_Y_SIZE + scanline],
{
    let g = glyph_index(c);
    FONT[g * FONT_Y_SIZE + scanline]
}

} // verus!
