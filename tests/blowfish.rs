use octavo::blowfish::{bcrypt, Blowfish};

struct Vector {
    key: [u8; 8],
    plaintext: [u8; 8],
    ciphertext: [u8; 8],
}

fn vectors() -> Vec<Vector> {
    vec![
        Vector {
            key: [0x00, 0x00, 0x00, 0x00, 0x00, 0x00, 0x00, 0x00],
            plaintext: [0x00, 0x00, 0x00, 0x00, 0x00, 0x00, 0x00, 0x00],
            ciphertext: [0x4E, 0xF9, 0x97, 0x45, 0x61, 0x98, 0xDD, 0x78],
        },
        Vector {
            key: [0xFF, 0xFF, 0xFF, 0xFF, 0xFF, 0xFF, 0xFF, 0xFF],
            plaintext: [0xFF, 0xFF, 0xFF, 0xFF, 0xFF, 0xFF, 0xFF, 0xFF],
            ciphertext: [0x51, 0x86, 0x6F, 0xD5, 0xB8, 0x5E, 0xCB, 0x8A],
        },
        Vector {
            key: [0x30, 0x00, 0x00, 0x00, 0x00, 0x00, 0x00, 0x00],
            plaintext: [0x10, 0x00, 0x00, 0x00, 0x00, 0x00, 0x00, 0x01],
            ciphertext: [0x7D, 0x85, 0x6F, 0x9A, 0x61, 0x30, 0x63, 0xF2],
        },
        Vector {
            key: [0x11, 0x11, 0x11, 0x11, 0x11, 0x11, 0x11, 0x11],
            plaintext: [0x11, 0x11, 0x11, 0x11, 0x11, 0x11, 0x11, 0x11],
            ciphertext: [0x24, 0x66, 0xDD, 0x87, 0x8B, 0x96, 0x3C, 0x9D],
        },
        Vector {
            key: [0x01, 0x23, 0x45, 0x67, 0x89, 0xAB, 0xCD, 0xEF],
            plaintext: [0x11, 0x11, 0x11, 0x11, 0x11, 0x11, 0x11, 0x11],
            ciphertext: [0x61, 0xF9, 0xC3, 0x80, 0x22, 0x81, 0xB0, 0x96],
        },
        Vector {
            key: [0x11, 0x11, 0x11, 0x11, 0x11, 0x11, 0x11, 0x11],
            plaintext: [0x01, 0x23, 0x45, 0x67, 0x89, 0xAB, 0xCD, 0xEF],
            ciphertext: [0x7D, 0x0C, 0xC6, 0x30, 0xAF, 0xDA, 0x1E, 0xC7],
        },
        Vector {
            key: [0xFE, 0xDC, 0xBA, 0x98, 0x76, 0x54, 0x32, 0x10],
            plaintext: [0x01, 0x23, 0x45, 0x67, 0x89, 0xAB, 0xCD, 0xEF],
            ciphertext: [0x0A, 0xCE, 0xAB, 0x0F, 0xC6, 0xA0, 0xA2, 0x8D],
        },
        Vector {
            key: [0x7C, 0xA1, 0x10, 0x45, 0x4A, 0x1A, 0x6E, 0x57],
            plaintext: [0x01, 0xA1, 0xD6, 0xD0, 0x39, 0x77, 0x67, 0x42],
            ciphertext: [0x59, 0xC6, 0x82, 0x45, 0xEB, 0x05, 0x28, 0x2B],
        },
        Vector {
            key: [0x01, 0x31, 0xD9, 0x61, 0x9D, 0xC1, 0x37, 0x6E],
            plaintext: [0x5C, 0xD5, 0x4C, 0xA8, 0x3D, 0xEF, 0x57, 0xDA],
            ciphertext: [0xB1, 0xB8, 0xCC, 0x0B, 0x25, 0x0F, 0x09, 0xA0],
        },
        Vector {
            key: [0x07, 0xA1, 0x13, 0x3E, 0x4A, 0x0B, 0x26, 0x86],
            plaintext: [0x02, 0x48, 0xD4, 0x38, 0x06, 0xF6, 0x71, 0x72],
            ciphertext: [0x17, 0x30, 0xE5, 0x77, 0x8B, 0xEA, 0x1D, 0xA4],
        },
        Vector {
            key: [0x38, 0x49, 0x67, 0x4C, 0x26, 0x02, 0x31, 0x9E],
            plaintext: [0x51, 0x45, 0x4B, 0x58, 0x2D, 0xDF, 0x44, 0x0A],
            ciphertext: [0xA2, 0x5E, 0x78, 0x56, 0xCF, 0x26, 0x51, 0xEB],
        },
        Vector {
            key: [0x04, 0xB9, 0x15, 0xBA, 0x43, 0xFE, 0xB5, 0xB6],
            plaintext: [0x42, 0xFD, 0x44, 0x30, 0x59, 0x57, 0x7F, 0xA2],
            ciphertext: [0x35, 0x38, 0x82, 0xB1, 0x09, 0xCE, 0x8F, 0x1A],
        },
        Vector {
            key: [0x01, 0x13, 0xB9, 0x70, 0xFD, 0x34, 0xF2, 0xCE],
            plaintext: [0x05, 0x9B, 0x5E, 0x08, 0x51, 0xCF, 0x14, 0x3A],
            ciphertext: [0x48, 0xF4, 0xD0, 0x88, 0x4C, 0x37, 0x99, 0x18],
        },
        Vector {
            key: [0x01, 0x70, 0xF1, 0x75, 0x46, 0x8F, 0xB5, 0xE6],
            plaintext: [0x07, 0x56, 0xD8, 0xE0, 0x77, 0x47, 0x61, 0xD2],
            ciphertext: [0x43, 0x21, 0x93, 0xB7, 0x89, 0x51, 0xFC, 0x98],
        },
        Vector {
            key: [0x43, 0x29, 0x7F, 0xAD, 0x38, 0xE3, 0x73, 0xFE],
            plaintext: [0x76, 0x25, 0x14, 0xB8, 0x29, 0xBF, 0x48, 0x6A],
            ciphertext: [0x13, 0xF0, 0x41, 0x54, 0xD6, 0x9D, 0x1A, 0xE5],
        },
        Vector {
            key: [0x07, 0xA7, 0x13, 0x70, 0x45, 0xDA, 0x2A, 0x16],
            plaintext: [0x3B, 0xDD, 0x11, 0x90, 0x49, 0x37, 0x28, 0x02],
            ciphertext: [0x2E, 0xED, 0xDA, 0x93, 0xFF, 0xD3, 0x9C, 0x79],
        },
        Vector {
            key: [0x04, 0x68, 0x91, 0x04, 0xC2, 0xFD, 0x3B, 0x2F],
            plaintext: [0x26, 0x95, 0x5F, 0x68, 0x35, 0xAF, 0x60, 0x9A],
            ciphertext: [0xD8, 0x87, 0xE0, 0x39, 0x3C, 0x2D, 0xA6, 0xE3],
        },
        Vector {
            key: [0x37, 0xD0, 0x6B, 0xB5, 0x16, 0xCB, 0x75, 0x46],
            plaintext: [0x16, 0x4D, 0x5E, 0x40, 0x4F, 0x27, 0x52, 0x32],
            ciphertext: [0x5F, 0x99, 0xD0, 0x4F, 0x5B, 0x16, 0x39, 0x69],
        },
        Vector {
            key: [0x1F, 0x08, 0x26, 0x0D, 0x1A, 0xC2, 0x46, 0x5E],
            plaintext: [0x6B, 0x05, 0x6E, 0x18, 0x75, 0x9F, 0x5C, 0xCA],
            ciphertext: [0x4A, 0x05, 0x7A, 0x3B, 0x24, 0xD3, 0x97, 0x7B],
        },
        Vector {
            key: [0x58, 0x40, 0x23, 0x64, 0x1A, 0xBA, 0x61, 0x76],
            plaintext: [0x00, 0x4B, 0xD6, 0xEF, 0x09, 0x17, 0x60, 0x62],
            ciphertext: [0x45, 0x20, 0x31, 0xC1, 0xE4, 0xFA, 0xDA, 0x8E],
        },
        Vector {
            key: [0x02, 0x58, 0x16, 0x16, 0x46, 0x29, 0xB0, 0x07],
            plaintext: [0x48, 0x0D, 0x39, 0x00, 0x6E, 0xE7, 0x62, 0xF2],
            ciphertext: [0x75, 0x55, 0xAE, 0x39, 0xF5, 0x9B, 0x87, 0xBD],
        },
        Vector {
            key: [0x49, 0x79, 0x3E, 0xBC, 0x79, 0xB3, 0x25, 0x8F],
            plaintext: [0x43, 0x75, 0x40, 0xC8, 0x69, 0x8F, 0x3C, 0xFA],
            ciphertext: [0x53, 0xC5, 0x5F, 0x9C, 0xB4, 0x9F, 0xC0, 0x19],
        },
        Vector {
            key: [0x4F, 0xB0, 0x5E, 0x15, 0x15, 0xAB, 0x73, 0xA7],
            plaintext: [0x07, 0x2D, 0x43, 0xA0, 0x77, 0x07, 0x52, 0x92],
            ciphertext: [0x7A, 0x8E, 0x7B, 0xFA, 0x93, 0x7E, 0x89, 0xA3],
        },
        Vector {
            key: [0x49, 0xE9, 0x5D, 0x6D, 0x4C, 0xA2, 0x29, 0xBF],
            plaintext: [0x02, 0xFE, 0x55, 0x77, 0x81, 0x17, 0xF1, 0x2A],
            ciphertext: [0xCF, 0x9C, 0x5D, 0x7A, 0x49, 0x86, 0xAD, 0xB5],
        },
        Vector {
            key: [0x01, 0x83, 0x10, 0xDC, 0x40, 0x9B, 0x26, 0xD6],
            plaintext: [0x1D, 0x9D, 0x5C, 0x50, 0x18, 0xF7, 0x28, 0xC2],
            ciphertext: [0xD1, 0xAB, 0xB2, 0x90, 0x65, 0x8B, 0xC7, 0x78],
        },
        Vector {
            key: [0x1C, 0x58, 0x7F, 0x1C, 0x13, 0x92, 0x4F, 0xEF],
            plaintext: [0x30, 0x55, 0x32, 0x28, 0x6D, 0x6F, 0x29, 0x5A],
            ciphertext: [0x55, 0xCB, 0x37, 0x74, 0xD1, 0x3E, 0xF2, 0x01],
        },
        Vector {
            key: [0x01, 0x01, 0x01, 0x01, 0x01, 0x01, 0x01, 0x01],
            plaintext: [0x01, 0x23, 0x45, 0x67, 0x89, 0xAB, 0xCD, 0xEF],
            ciphertext: [0xFA, 0x34, 0xEC, 0x48, 0x47, 0xB2, 0x68, 0xB2],
        },
        Vector {
            key: [0x1F, 0x1F, 0x1F, 0x1F, 0x0E, 0x0E, 0x0E, 0x0E],
            plaintext: [0x01, 0x23, 0x45, 0x67, 0x89, 0xAB, 0xCD, 0xEF],
            ciphertext: [0xA7, 0x90, 0x79, 0x51, 0x08, 0xEA, 0x3C, 0xAE],
        },
        Vector {
            key: [0xE0, 0xFE, 0xE0, 0xFE, 0xF1, 0xFE, 0xF1, 0xFE],
            plaintext: [0x01, 0x23, 0x45, 0x67, 0x89, 0xAB, 0xCD, 0xEF],
            ciphertext: [0xC3, 0x9E, 0x07, 0x2D, 0x9F, 0xAC, 0x63, 0x1D],
        },
        Vector {
            key: [0x00, 0x00, 0x00, 0x00, 0x00, 0x00, 0x00, 0x00],
            plaintext: [0xFF, 0xFF, 0xFF, 0xFF, 0xFF, 0xFF, 0xFF, 0xFF],
            ciphertext: [0x01, 0x49, 0x33, 0xE0, 0xCD, 0xAF, 0xF6, 0xE4],
        },
        Vector {
            key: [0xFF, 0xFF, 0xFF, 0xFF, 0xFF, 0xFF, 0xFF, 0xFF],
            plaintext: [0x00, 0x00, 0x00, 0x00, 0x00, 0x00, 0x00, 0x00],
            ciphertext: [0xF2, 0x1E, 0x9A, 0x77, 0xB7, 0x1C, 0x49, 0xBC],
        },
        Vector {
            key: [0x01, 0x23, 0x45, 0x67, 0x89, 0xAB, 0xCD, 0xEF],
            plaintext: [0x00, 0x00, 0x00, 0x00, 0x00, 0x00, 0x00, 0x00],
            ciphertext: [0x24, 0x59, 0x46, 0x88, 0x57, 0x54, 0x36, 0x9A],
        },
        Vector {
            key: [0xFE, 0xDC, 0xBA, 0x98, 0x76, 0x54, 0x32, 0x10],
            plaintext: [0xFF, 0xFF, 0xFF, 0xFF, 0xFF, 0xFF, 0xFF, 0xFF],
            ciphertext: [0x6B, 0x5C, 0x5A, 0x9C, 0x5D, 0x9E, 0x0A, 0x5A],
        },
    ]
}

struct Bcrypt {
    cost: usize,
    salt: Vec<u8>,
    input: Vec<u8>,
    output: Vec<u8>,
}

// $2y$ versions of the openwall vectors.
fn openwall_test_vectors() -> Vec<Bcrypt> {
    vec![
        Bcrypt {
            input: vec![0x55, 0x2A, 0x55, 0x00],
            cost: 5,
            salt: vec![0x10, 0x41, 0x04, 0x10, 0x41, 0x04, 0x10, 0x41, 0x04, 0x10, 0x41, 0x04, 0x10, 0x41, 0x04, 0x10],
            output: vec![0x1B, 0xB6, 0x91, 0x43, 0xF9, 0xA8, 0xD3, 0x04, 0xC8, 0xD2, 0x3D, 0x99, 0xAB, 0x04, 0x9A, 0x77, 0xA6, 0x8E, 0x2C, 0xCC, 0x74, 0x42, 0x06],
        },
        Bcrypt {
            input: vec![0x55, 0x2A, 0x55, 0x2A, 0x00],
            cost: 5,
            salt: vec![0x10, 0x41, 0x04, 0x10, 0x41, 0x04, 0x10, 0x41, 0x04, 0x10, 0x41, 0x04, 0x10, 0x41, 0x04, 0x10],
            output: vec![0x5C, 0x84, 0x35, 0x0B, 0xDF, 0xBA, 0xA9, 0x6A, 0xC1, 0x6F, 0x61, 0x5A, 0xE7, 0x9F, 0x35, 0xCF, 0xDA, 0xCD, 0x68, 0x2D, 0x36, 0x9F, 0x23],
        },
        Bcrypt {
            input: vec![0x55, 0x2A, 0x55, 0x2A, 0x55, 0x00],
            cost: 5,
            salt: vec![0x65, 0x96, 0x59, 0x65, 0x96, 0x59, 0x65, 0x96, 0x59, 0x65, 0x96, 0x59, 0x65, 0x96, 0x59, 0x65],
            output: vec![0x09, 0xE6, 0x73, 0xA3, 0xF9, 0xA5, 0x44, 0x81, 0x8E, 0xB8, 0xDD, 0x69, 0xA8, 0xCB, 0x28, 0xB3, 0x2F, 0x6F, 0x7B, 0xE6, 0x04, 0xCF, 0xA7],
        },
        Bcrypt {
            input: vec![0x30, 0x31, 0x32, 0x33, 0x34, 0x35, 0x36, 0x37, 0x38, 0x39, 0x61, 0x62, 0x63, 0x64, 0x65, 0x66, 0x67, 0x68, 0x69, 0x6A, 0x6B, 0x6C, 0x6D, 0x6E, 0x6F, 0x70, 0x71, 0x72, 0x73, 0x74, 0x75, 0x76, 0x77, 0x78, 0x79, 0x7A, 0x41, 0x42, 0x43, 0x44, 0x45, 0x46, 0x47, 0x48, 0x49, 0x4A, 0x4B, 0x4C, 0x4D, 0x4E, 0x4F, 0x50, 0x51, 0x52, 0x53, 0x54, 0x55, 0x56, 0x57, 0x58, 0x59, 0x5A, 0x30, 0x31, 0x32, 0x33, 0x34, 0x35, 0x36, 0x37, 0x38, 0x39],
            cost: 5,
            salt: vec![0x71, 0xD7, 0x9F, 0x82, 0x18, 0xA3, 0x92, 0x59, 0xA7, 0xA2, 0x9A, 0xAB, 0xB2, 0xDB, 0xAF, 0xC3],
            output: vec![0xEE, 0xEE, 0x31, 0xF8, 0x09, 0x19, 0x92, 0x04, 0x25, 0x88, 0x10, 0x02, 0xD1, 0x40, 0xD5, 0x55, 0xB2, 0x8A, 0x5C, 0x72, 0xE0, 0x0F, 0x09],
        },
        Bcrypt {
            input: vec![0xFF, 0xFF, 0xA3, 0x00],
            cost: 5,
            salt: vec![0x05, 0x03, 0x00, 0x85, 0xD5, 0xED, 0x4C, 0x17, 0x6B, 0x2A, 0xC3, 0xCB, 0xEE, 0x47, 0x29, 0x1C],
            output: vec![0x10, 0x6E, 0xE0, 0x9C, 0x97, 0x1C, 0x43, 0xA1, 0x9D, 0x8A, 0x25, 0xC5, 0x95, 0xDF, 0x91, 0xDF, 0xF4, 0xF0, 0x9B, 0x56, 0x54, 0x3B, 0x98],
        },
        Bcrypt {
            input: vec![0xA3, 0x00],
            cost: 5,
            salt: vec![0x05, 0x03, 0x00, 0x85, 0xD5, 0xED, 0x4C, 0x17, 0x6B, 0x2A, 0xC3, 0xCB, 0xEE, 0x47, 0x29, 0x1C],
            output: vec![0x51, 0xCF, 0x6E, 0x8D, 0xDA, 0x3A, 0x01, 0x0D, 0x4C, 0xAF, 0x11, 0xE9, 0x67, 0x7A, 0xD2, 0x36, 0x84, 0x98, 0xFF, 0xCA, 0x96, 0x9C, 0x4B],
        },
        Bcrypt {
            input: vec![0xFF, 0xA3, 0x33, 0x34, 0xFF, 0xFF, 0xFF, 0xA3, 0x33, 0x34, 0x35, 0x00],
            cost: 5,
            salt: vec![0x05, 0x03, 0x00, 0x85, 0xD5, 0xED, 0x4C, 0x17, 0x6B, 0x2A, 0xC3, 0xCB, 0xEE, 0x47, 0x29, 0x1C],
            output: vec![0xA8, 0x00, 0x69, 0xE3, 0xB6, 0x57, 0x86, 0x9F, 0x2A, 0x09, 0x17, 0x16, 0xC4, 0x98, 0x00, 0x12, 0xE9, 0xBA, 0xD5, 0x38, 0x6E, 0x69, 0x19],
        },
        Bcrypt {
            input: vec![0xFF, 0xA3, 0x33, 0x34, 0x35, 0x00],
            cost: 5,
            salt: vec![0x05, 0x03, 0x00, 0x85, 0xD5, 0xED, 0x4C, 0x17, 0x6B, 0x2A, 0xC3, 0xCB, 0xEE, 0x47, 0x29, 0x1C],
            output: vec![0xA5, 0x38, 0xEF, 0xE2, 0x70, 0x49, 0x4E, 0x3B, 0x7C, 0xD6, 0x81, 0x2B, 0xFF, 0x16, 0x96, 0xC7, 0x1B, 0xAC, 0xD2, 0x98, 0x67, 0x87, 0xF8],
        },
        Bcrypt {
            input: vec![0xA3, 0x61, 0x62, 0x00],
            cost: 5,
            salt: vec![0x05, 0x03, 0x00, 0x85, 0xD5, 0xED, 0x4C, 0x17, 0x6B, 0x2A, 0xC3, 0xCB, 0xEE, 0x47, 0x29, 0x1C],
            output: vec![0xF0, 0xA8, 0x67, 0x4A, 0x62, 0xF4, 0xBE, 0xA4, 0xD7, 0x7B, 0x7D, 0x30, 0x70, 0xFB, 0xC9, 0x86, 0x4C, 0x2C, 0x00, 0x74, 0xE7, 0x50, 0xA5],
        },
        Bcrypt {
            input: vec![0xAA, 0xAA, 0xAA, 0xAA, 0xAA, 0xAA, 0xAA, 0xAA, 0xAA, 0xAA, 0xAA, 0xAA, 0xAA, 0xAA, 0xAA, 0xAA, 0xAA, 0xAA, 0xAA, 0xAA, 0xAA, 0xAA, 0xAA, 0xAA, 0xAA, 0xAA, 0xAA, 0xAA, 0xAA, 0xAA, 0xAA, 0xAA, 0xAA, 0xAA, 0xAA, 0xAA, 0xAA, 0xAA, 0xAA, 0xAA, 0xAA, 0xAA, 0xAA, 0xAA, 0xAA, 0xAA, 0xAA, 0xAA, 0xAA, 0xAA, 0xAA, 0xAA, 0xAA, 0xAA, 0xAA, 0xAA, 0xAA, 0xAA, 0xAA, 0xAA, 0xAA, 0xAA, 0xAA, 0xAA, 0xAA, 0xAA, 0xAA, 0xAA, 0xAA, 0xAA, 0xAA, 0xAA],
            cost: 5,
            salt: vec![0x05, 0x03, 0x00, 0x85, 0xD5, 0xED, 0x4C, 0x17, 0x6B, 0x2A, 0xC3, 0xCB, 0xEE, 0x47, 0x29, 0x1C],
            output: vec![0xBB, 0x24, 0x90, 0x2B, 0x59, 0x50, 0x90, 0xBF, 0xC8, 0x24, 0x64, 0x70, 0x8C, 0x69, 0xB1, 0xB2, 0xD5, 0xB4, 0xC5, 0x88, 0xC6, 0x3B, 0x3F],
        },
        Bcrypt {
            input: vec![0xAA, 0x55, 0xAA, 0x55, 0xAA, 0x55, 0xAA, 0x55, 0xAA, 0x55, 0xAA, 0x55, 0xAA, 0x55, 0xAA, 0x55, 0xAA, 0x55, 0xAA, 0x55, 0xAA, 0x55, 0xAA, 0x55, 0xAA, 0x55, 0xAA, 0x55, 0xAA, 0x55, 0xAA, 0x55, 0xAA, 0x55, 0xAA, 0x55, 0xAA, 0x55, 0xAA, 0x55, 0xAA, 0x55, 0xAA, 0x55, 0xAA, 0x55, 0xAA, 0x55, 0xAA, 0x55, 0xAA, 0x55, 0xAA, 0x55, 0xAA, 0x55, 0xAA, 0x55, 0xAA, 0x55, 0xAA, 0x55, 0xAA, 0x55, 0xAA, 0x55, 0xAA, 0x55, 0xAA, 0x55, 0xAA, 0x55],
            cost: 5,
            salt: vec![0x05, 0x03, 0x00, 0x85, 0xD5, 0xED, 0x4C, 0x17, 0x6B, 0x2A, 0xC3, 0xCB, 0xEE, 0x47, 0x29, 0x1C],
            output: vec![0x4F, 0xFC, 0xED, 0x16, 0x59, 0x34, 0x7B, 0x33, 0x9D, 0x48, 0x6E, 0x1D, 0xAC, 0x0C, 0x62, 0xB2, 0x76, 0xAB, 0x63, 0xBC, 0xB3, 0xE3, 0x4D],
        },
        Bcrypt {
            input: vec![0x55, 0xAA, 0xFF, 0x55, 0xAA, 0xFF, 0x55, 0xAA, 0xFF, 0x55, 0xAA, 0xFF, 0x55, 0xAA, 0xFF, 0x55, 0xAA, 0xFF, 0x55, 0xAA, 0xFF, 0x55, 0xAA, 0xFF, 0x55, 0xAA, 0xFF, 0x55, 0xAA, 0xFF, 0x55, 0xAA, 0xFF, 0x55, 0xAA, 0xFF, 0x55, 0xAA, 0xFF, 0x55, 0xAA, 0xFF, 0x55, 0xAA, 0xFF, 0x55, 0xAA, 0xFF, 0x55, 0xAA, 0xFF, 0x55, 0xAA, 0xFF, 0x55, 0xAA, 0xFF, 0x55, 0xAA, 0xFF, 0x55, 0xAA, 0xFF, 0x55, 0xAA, 0xFF, 0x55, 0xAA, 0xFF, 0x55, 0xAA, 0xFF],
            cost: 5,
            salt: vec![0x05, 0x03, 0x00, 0x85, 0xD5, 0xED, 0x4C, 0x17, 0x6B, 0x2A, 0xC3, 0xCB, 0xEE, 0x47, 0x29, 0x1C],
            output: vec![0xFE, 0xF4, 0x9B, 0xD5, 0xE2, 0xE1, 0xA3, 0x9C, 0x25, 0xE0, 0xFC, 0x4B, 0x06, 0x9E, 0xF3, 0x9A, 0x3A, 0xEC, 0x36, 0xD3, 0xAB, 0x60, 0x48],
        },
        Bcrypt {
            input: vec![0x00],
            cost: 5,
            salt: vec![0x10, 0x41, 0x04, 0x10, 0x41, 0x04, 0x10, 0x41, 0x04, 0x10, 0x41, 0x04, 0x10, 0x41, 0x04, 0x10],
            output: vec![0xF7, 0x02, 0x36, 0x5C, 0x4D, 0x4A, 0xE1, 0xD5, 0x3D, 0x97, 0xCD, 0x28, 0xB0, 0xB9, 0x3F, 0x11, 0xF7, 0x9F, 0xCE, 0x44, 0xD5, 0x60, 0xFD],
        },
    ]
}

#[test]
fn base_case() {
    let b = Blowfish::init();
    let data = [6u8; 8];
    let mut crypto = [0u8; 8];
    let mut result = [0u8; 8];

    b.encrypt_block(&data, &mut crypto);
    b.decrypt_block(&crypto, &mut result);
    assert_eq!(result, data);
}

#[test]
fn test_blowfish() {
    for test in vectors().iter() {
        let c = Blowfish::new(&test.key);
        let mut dat = [0u8; 8];

        c.encrypt_block(&test.plaintext, &mut dat);
        assert_eq!(test.ciphertext, dat);
    }
}

#[test]
fn test_openwall_test_vectors() {
    let tests = openwall_test_vectors();
    let mut output = [0u8; 24];
    for test in &tests {
        bcrypt(test.cost, &test.salt[..], &test.input[..], &mut output[..]);
        assert_eq!(&output[0..23], &test.output[..]);
    }
}

#[test]
fn blowfish_decrypts_every_vector() {
    for test in vectors().iter() {
        let c = Blowfish::new(&test.key);
        let mut dat = [0u8; 8];

        c.decrypt_block(&test.ciphertext, &mut dat);
        assert_eq!(test.plaintext, dat);
    }
}

#[test]
fn blowfish_zero_key_known_answer() {
    let c = Blowfish::new(&[0u8; 8]);
    let mut dat = [0u8; 8];
    c.encrypt_block(&[0u8; 8], &mut dat);
    assert_eq!(dat, [0x4E, 0xF9, 0x97, 0x45, 0x61, 0x98, 0xDD, 0x78]);
}

#[test]
fn blowfish_round_trip_under_longest_and_shortest_keys() {
    let block = [0x01u8, 0x23, 0x45, 0x67, 0x89, 0xAB, 0xCD, 0xEF];
    for key in [vec![0x5Au8; 4], (0u8..56).collect::<Vec<u8>>(), vec![7u8, 1, 200, 3, 9]] {
        let c = Blowfish::new(&key);
        let mut enc = [0u8; 8];
        let mut dec = [0u8; 8];
        c.encrypt_block(&block, &mut enc);
        assert_ne!(enc, block);
        c.decrypt_block(&enc, &mut dec);
        assert_eq!(dec, block);
    }
}

#[test]
fn blowfish_block_size_is_eight() {
    assert_eq!(Blowfish::block_size(), 8);
}

#[test]
fn bcrypt_known_answer() {
    let salt = [0x10u8, 0x41, 0x04, 0x10, 0x41, 0x04, 0x10, 0x41, 0x04, 0x10, 0x41, 0x04, 0x10, 0x41, 0x04, 0x10];
    let mut out = [0u8; 24];
    bcrypt(5, &salt, &[0x55, 0x2A, 0x55, 0x00], &mut out);
    assert_eq!(
        &out[0..22],
        &[0x1B, 0xB6, 0x91, 0x43, 0xF9, 0xA8, 0xD3, 0x04, 0xC8, 0xD2, 0x3D, 0x99, 0xAB, 0x04, 0x9A, 0x77, 0xA6, 0x8E, 0x2C, 0xCC, 0x74, 0x42]
    );
}

#[test]
fn bcrypt_accepts_a_password_of_72_bytes() {
    let salt = [0x05u8, 0x03, 0x00, 0x85, 0xD5, 0xED, 0x4C, 0x17, 0x6B, 0x2A, 0xC3, 0xCB, 0xEE, 0x47, 0x29, 0x1C];
    let password = vec![0xAAu8; 72];
    let mut out = [0u8; 24];
    bcrypt(5, &salt, &password, &mut out);
    assert_eq!(
        &out[0..23],
        &[0xBB, 0x24, 0x90, 0x2B, 0x59, 0x50, 0x90, 0xBF, 0xC8, 0x24, 0x64, 0x70, 0x8C, 0x69, 0xB1, 0xB2, 0xD5, 0xB4, 0xC5, 0x88, 0xC6, 0x3B, 0x3F]
    );
}

#[test]
fn bcrypt_cost_changes_output() {
    let salt = [0x10u8; 16];
    let mut a = [0u8; 24];
    let mut b = [0u8; 24];
    bcrypt(0, &salt, b"pw", &mut a);
    bcrypt(1, &salt, b"pw", &mut b);
    assert_ne!(a, b);
    let mut c = [0u8; 24];
    bcrypt(1, &salt, b"pw", &mut c);
    assert_eq!(b, c);
}
