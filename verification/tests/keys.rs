//! Key loading, scheme negotiation and signing, exercised with real key
//! material for every supported (encoding, algorithm) pair.


pub const RSA2048_PKCS1: &[u8] = &[48,130,4,164,2,1,0,2,130,1,1,0,223,202,171,93,231,248,178,23,37,153,9,240,209,97,0,110,184,216,228,71,37,59,243,78,125,135,44,248,130,49,42,179,14,82,131,51,218,10,149,245,221,209,135,97,190,118,43,165,52,248,92,158,184,118,171,232,218,164,91,65,123,156,170,30,19,231,204,207,202,101,254,236,103,182,232,252,120,98,124,60,206,173,43,63,167,117,243,3,50,137,231,56,29,169,76,127,203,227,153,181,120,98,178,247,73,141,73,66,131,234,175,228,145,116,112,117,88,180,83,66,214,56,47,213,167,156,7,88,63,178,135,210,197,219,188,34,96,189,154,98,35,81,73,81,228,233,206,149,162,155,71,55,239,33,188,164,147,255,211,86,99,239,149,200,120,9,252,47,34,129,171,17,149,60,188,127,39,136,57,232,104,73,106,46,6,21,58,80,111,232,210,212,217,51,136,101,181,90,151,142,77,128,131,210,113,255,194,12,222,139,135,224,190,235,124,107,222,78,138,107,172,133,245,186,89,5,37,99,251,79,234,66,3,57,71,132,156,31,252,171,101,114,77,123,141,194,159,148,159,132,112,137,33,152,208,243,2,3,1,0,1,2,130,1,0,57,230,121,199,230,8,150,43,30,243,37,123,68,240,207,231,213,179,103,252,112,73,190,125,132,68,193,1,218,205,85,186,213,237,203,60,83,33,130,3,6,204,251,53,242,205,40,37,170,58,199,219,216,229,251,60,87,181,70,86,254,224,93,179,66,123,42,166,104,59,83,101,94,192,24,47,154,6,1,22,202,114,75,74,64,205,103,126,96,73,5,165,163,38,246,63,234,68,140,180,66,221,102,104,76,131,93,124,244,28,120,61,174,212,109,116,46,235,24,207,166,21,11,107,63,222,66,151,186,121,100,101,203,116,113,193,18,251,80,125,68,114,29,104,187,130,254,191,3,15,137,45,194,88,102,225,137,232,146,92,64,182,10,142,249,19,107,61,190,10,74,189,104,88,140,57,252,78,119,224,161,255,4,196,107,78,228,144,136,84,155,145,188,133,103,210,220,209,128,50,172,116,96,75,117,155,120,25,135,193,61,181,107,70,94,142,193,84,226,25,148,205,242,105,57,43,227,51,183,132,71,71,116,207,9,101,248,153,16,94,183,85,193,182,84,55,107,116,187,215,132,142,189,123,184,225,2,129,129,0,252,184,101,74,55,126,239,26,233,180,36,118,32,123,44,125,254,165,89,157,155,71,171,33,86,1,197,152,84,62,107,106,133,193,44,29,77,156,65,163,130,61,157,75,95,149,61,108,39,82,47,183,104,108,112,19,173,58,107,198,145,10,99,183,240,48,52,44,6,168,210,217,148,63,126,208,158,245,23,5,76,164,62,199,159,59,109,3,119,6,22,174,82,119,227,157,48,45,246,83,137,157,35,167,41,8,255,127,124,122,187,146,108,86,127,165,140,146,14,228,8,193,220,145,77,250,158,125,2,129,129,0,226,178,42,70,156,86,236,182,58,40,6,218,92,212,69,217,221,69,238,191,152,120,52,19,10,207,67,105,247,3,27,162,98,165,85,185,93,0,44,109,43,88,224,139,164,190,204,132,181,205,65,242,72,225,196,61,250,28,85,102,212,118,221,43,226,206,61,85,54,22,62,162,75,91,9,122,132,186,221,113,4,15,232,48,153,236,108,147,57,7,76,83,190,79,232,209,142,56,166,118,227,60,16,104,77,158,164,211,161,252,52,29,222,135,119,106,14,68,174,56,14,208,149,51,195,194,24,47,2,129,129,0,211,55,114,64,163,61,77,173,218,161,154,207,183,185,250,167,155,74,171,41,148,124,67,196,234,211,52,72,106,48,121,42,96,123,224,216,228,226,177,225,108,154,254,121,222,123,39,8,219,156,79,17,37,15,108,100,165,165,108,42,91,82,169,161,51,247,181,195,14,21,207,147,213,217,115,173,253,12,174,158,217,61,116,210,246,124,126,82,37,10,75,174,138,114,117,36,12,254,125,31,184,166,67,4,20,193,214,120,192,154,251,102,23,113,251,225,107,41,47,148,218,212,219,249,253,136,119,41,2,129,128,88,71,75,65,62,6,119,157,170,222,5,117,41,107,28,92,111,215,152,214,145,152,85,167,8,177,151,173,255,27,253,185,233,178,58,196,185,91,164,241,74,77,12,252,52,70,124,188,61,83,214,23,116,156,62,96,104,50,122,107,85,215,135,223,92,46,54,34,37,178,217,231,55,115,23,40,215,225,48,244,158,193,87,8,254,23,220,92,36,124,28,20,12,107,111,221,147,5,170,133,103,141,239,81,190,208,69,157,136,89,255,45,150,135,168,79,235,136,129,83,161,41,70,192,230,189,129,207,2,129,129,0,220,155,237,191,109,22,13,245,145,92,156,42,70,190,140,118,203,124,172,21,209,205,211,101,118,132,69,25,244,129,101,190,164,132,109,206,31,117,78,30,214,178,216,112,245,87,19,204,121,223,217,134,114,173,142,179,153,243,192,145,12,188,145,235,10,64,122,83,237,87,106,112,66,29,113,246,195,248,92,58,124,241,127,137,113,57,34,134,245,122,127,182,11,132,53,124,192,61,104,77,90,43,58,50,79,18,123,25,129,133,245,113,25,18,212,197,72,207,28,70,15,251,18,122,156,202,35,76];
pub const RSA2048_PKCS8: &[u8] = &[48,130,4,190,2,1,0,48,13,6,9,42,134,72,134,247,13,1,1,1,5,0,4,130,4,168,48,130,4,164,2,1,0,2,130,1,1,0,223,202,171,93,231,248,178,23,37,153,9,240,209,97,0,110,184,216,228,71,37,59,243,78,125,135,44,248,130,49,42,179,14,82,131,51,218,10,149,245,221,209,135,97,190,118,43,165,52,248,92,158,184,118,171,232,218,164,91,65,123,156,170,30,19,231,204,207,202,101,254,236,103,182,232,252,120,98,124,60,206,173,43,63,167,117,243,3,50,137,231,56,29,169,76,127,203,227,153,181,120,98,178,247,73,141,73,66,131,234,175,228,145,116,112,117,88,180,83,66,214,56,47,213,167,156,7,88,63,178,135,210,197,219,188,34,96,189,154,98,35,81,73,81,228,233,206,149,162,155,71,55,239,33,188,164,147,255,211,86,99,239,149,200,120,9,252,47,34,129,171,17,149,60,188,127,39,136,57,232,104,73,106,46,6,21,58,80,111,232,210,212,217,51,136,101,181,90,151,142,77,128,131,210,113,255,194,12,222,139,135,224,190,235,124,107,222,78,138,107,172,133,245,186,89,5,37,99,251,79,234,66,3,57,71,132,156,31,252,171,101,114,77,123,141,194,159,148,159,132,112,137,33,152,208,243,2,3,1,0,1,2,130,1,0,57,230,121,199,230,8,150,43,30,243,37,123,68,240,207,231,213,179,103,252,112,73,190,125,132,68,193,1,218,205,85,186,213,237,203,60,83,33,130,3,6,204,251,53,242,205,40,37,170,58,199,219,216,229,251,60,87,181,70,86,254,224,93,179,66,123,42,166,104,59,83,101,94,192,24,47,154,6,1,22,202,114,75,74,64,205,103,126,96,73,5,165,163,38,246,63,234,68,140,180,66,221,102,104,76,131,93,124,244,28,120,61,174,212,109,116,46,235,24,207,166,21,11,107,63,222,66,151,186,121,100,101,203,116,113,193,18,251,80,125,68,114,29,104,187,130,254,191,3,15,137,45,194,88,102,225,137,232,146,92,64,182,10,142,249,19,107,61,190,10,74,189,104,88,140,57,252,78,119,224,161,255,4,196,107,78,228,144,136,84,155,145,188,133,103,210,220,209,128,50,172,116,96,75,117,155,120,25,135,193,61,181,107,70,94,142,193,84,226,25,148,205,242,105,57,43,227,51,183,132,71,71,116,207,9,101,248,153,16,94,183,85,193,182,84,55,107,116,187,215,132,142,189,123,184,225,2,129,129,0,252,184,101,74,55,126,239,26,233,180,36,118,32,123,44,125,254,165,89,157,155,71,171,33,86,1,197,152,84,62,107,106,133,193,44,29,77,156,65,163,130,61,157,75,95,149,61,108,39,82,47,183,104,108,112,19,173,58,107,198,145,10,99,183,240,48,52,44,6,168,210,217,148,63,126,208,158,245,23,5,76,164,62,199,159,59,109,3,119,6,22,174,82,119,227,157,48,45,246,83,137,157,35,167,41,8,255,127,124,122,187,146,108,86,127,165,140,146,14,228,8,193,220,145,77,250,158,125,2,129,129,0,226,178,42,70,156,86,236,182,58,40,6,218,92,212,69,217,221,69,238,191,152,120,52,19,10,207,67,105,247,3,27,162,98,165,85,185,93,0,44,109,43,88,224,139,164,190,204,132,181,205,65,242,72,225,196,61,250,28,85,102,212,118,221,43,226,206,61,85,54,22,62,162,75,91,9,122,132,186,221,113,4,15,232,48,153,236,108,147,57,7,76,83,190,79,232,209,142,56,166,118,227,60,16,104,77,158,164,211,161,252,52,29,222,135,119,106,14,68,174,56,14,208,149,51,195,194,24,47,2,129,129,0,211,55,114,64,163,61,77,173,218,161,154,207,183,185,250,167,155,74,171,41,148,124,67,196,234,211,52,72,106,48,121,42,96,123,224,216,228,226,177,225,108,154,254,121,222,123,39,8,219,156,79,17,37,15,108,100,165,165,108,42,91,82,169,161,51,247,181,195,14,21,207,147,213,217,115,173,253,12,174,158,217,61,116,210,246,124,126,82,37,10,75,174,138,114,117,36,12,254,125,31,184,166,67,4,20,193,214,120,192,154,251,102,23,113,251,225,107,41,47,148,218,212,219,249,253,136,119,41,2,129,128,88,71,75,65,62,6,119,157,170,222,5,117,41,107,28,92,111,215,152,214,145,152,85,167,8,177,151,173,255,27,253,185,233,178,58,196,185,91,164,241,74,77,12,252,52,70,124,188,61,83,214,23,116,156,62,96,104,50,122,107,85,215,135,223,92,46,54,34,37,178,217,231,55,115,23,40,215,225,48,244,158,193,87,8,254,23,220,92,36,124,28,20,12,107,111,221,147,5,170,133,103,141,239,81,190,208,69,157,136,89,255,45,150,135,168,79,235,136,129,83,161,41,70,192,230,189,129,207,2,129,129,0,220,155,237,191,109,22,13,245,145,92,156,42,70,190,140,118,203,124,172,21,209,205,211,101,118,132,69,25,244,129,101,190,164,132,109,206,31,117,78,30,214,178,216,112,245,87,19,204,121,223,217,134,114,173,142,179,153,243,192,145,12,188,145,235,10,64,122,83,237,87,106,112,66,29,113,246,195,248,92,58,124,241,127,137,113,57,34,134,245,122,127,182,11,132,53,124,192,61,104,77,90,43,58,50,79,18,123,25,129,133,245,113,25,18,212,197,72,207,28,70,15,251,18,122,156,202,35,76];
pub const RSA2048_PUBLIC_PKCS1: &[u8] = &[48,130,1,10,2,130,1,1,0,223,202,171,93,231,248,178,23,37,153,9,240,209,97,0,110,184,216,228,71,37,59,243,78,125,135,44,248,130,49,42,179,14,82,131,51,218,10,149,245,221,209,135,97,190,118,43,165,52,248,92,158,184,118,171,232,218,164,91,65,123,156,170,30,19,231,204,207,202,101,254,236,103,182,232,252,120,98,124,60,206,173,43,63,167,117,243,3,50,137,231,56,29,169,76,127,203,227,153,181,120,98,178,247,73,141,73,66,131,234,175,228,145,116,112,117,88,180,83,66,214,56,47,213,167,156,7,88,63,178,135,210,197,219,188,34,96,189,154,98,35,81,73,81,228,233,206,149,162,155,71,55,239,33,188,164,147,255,211,86,99,239,149,200,120,9,252,47,34,129,171,17,149,60,188,127,39,136,57,232,104,73,106,46,6,21,58,80,111,232,210,212,217,51,136,101,181,90,151,142,77,128,131,210,113,255,194,12,222,139,135,224,190,235,124,107,222,78,138,107,172,133,245,186,89,5,37,99,251,79,234,66,3,57,71,132,156,31,252,171,101,114,77,123,141,194,159,148,159,132,112,137,33,152,208,243,2,3,1,0,1];
pub const P256_PKCS8: &[u8] = &[48,129,135,2,1,0,48,19,6,7,42,134,72,206,61,2,1,6,8,42,134,72,206,61,3,1,7,4,109,48,107,2,1,1,4,32,71,238,88,46,77,46,70,255,120,217,8,193,191,94,89,249,201,233,87,113,38,162,233,238,208,147,168,36,195,135,85,63,161,68,3,66,0,4,19,34,70,168,167,72,101,113,101,181,218,101,77,169,171,254,253,69,176,144,156,36,121,87,35,174,29,1,129,39,231,61,51,197,130,130,60,229,107,127,186,160,92,208,175,0,123,25,71,117,145,90,178,155,175,251,60,169,14,114,4,71,31,187];
pub const P256_SEC1: &[u8] = &[48,119,2,1,1,4,32,71,238,88,46,77,46,70,255,120,217,8,193,191,94,89,249,201,233,87,113,38,162,233,238,208,147,168,36,195,135,85,63,160,10,6,8,42,134,72,206,61,3,1,7,161,68,3,66,0,4,19,34,70,168,167,72,101,113,101,181,218,101,77,169,171,254,253,69,176,144,156,36,121,87,35,174,29,1,129,39,231,61,51,197,130,130,60,229,107,127,186,160,92,208,175,0,123,25,71,117,145,90,178,155,175,251,60,169,14,114,4,71,31,187];
pub const P256_PUBLIC_UNCOMPRESSED: &[u8] = &[4,19,34,70,168,167,72,101,113,101,181,218,101,77,169,171,254,253,69,176,144,156,36,121,87,35,174,29,1,129,39,231,61,51,197,130,130,60,229,107,127,186,160,92,208,175,0,123,25,71,117,145,90,178,155,175,251,60,169,14,114,4,71,31,187];
pub const P384_PKCS8: &[u8] = &[48,129,182,2,1,0,48,16,6,7,42,134,72,206,61,2,1,6,5,43,129,4,0,34,4,129,158,48,129,155,2,1,1,4,48,185,182,58,124,227,9,55,136,188,132,119,192,0,186,107,219,216,36,7,91,218,12,149,18,246,108,64,102,43,33,47,138,34,82,237,51,254,240,176,48,83,244,229,66,191,83,36,80,161,100,3,98,0,4,199,11,153,42,82,203,82,127,222,189,209,237,117,123,73,167,66,29,34,132,72,232,228,148,174,43,169,112,135,205,172,125,229,7,222,119,51,166,96,109,79,21,199,85,162,82,167,26,108,62,194,69,213,103,213,234,73,174,191,51,38,47,28,137,214,193,37,85,14,167,175,248,171,33,10,253,22,75,33,143,147,61,50,190,174,129,3,194,204,43,35,252,140,76,124,247];
pub const P384_SEC1: &[u8] = &[48,129,164,2,1,1,4,48,185,182,58,124,227,9,55,136,188,132,119,192,0,186,107,219,216,36,7,91,218,12,149,18,246,108,64,102,43,33,47,138,34,82,237,51,254,240,176,48,83,244,229,66,191,83,36,80,160,7,6,5,43,129,4,0,34,161,100,3,98,0,4,199,11,153,42,82,203,82,127,222,189,209,237,117,123,73,167,66,29,34,132,72,232,228,148,174,43,169,112,135,205,172,125,229,7,222,119,51,166,96,109,79,21,199,85,162,82,167,26,108,62,194,69,213,103,213,234,73,174,191,51,38,47,28,137,214,193,37,85,14,167,175,248,171,33,10,253,22,75,33,143,147,61,50,190,174,129,3,194,204,43,35,252,140,76,124,247];
pub const P384_PUBLIC_UNCOMPRESSED: &[u8] = &[4,199,11,153,42,82,203,82,127,222,189,209,237,117,123,73,167,66,29,34,132,72,232,228,148,174,43,169,112,135,205,172,125,229,7,222,119,51,166,96,109,79,21,199,85,162,82,167,26,108,62,194,69,213,103,213,234,73,174,191,51,38,47,28,137,214,193,37,85,14,167,175,248,171,33,10,253,22,75,33,143,147,61,50,190,174,129,3,194,204,43,35,252,140,76,124,247];
pub const ED25519_PKCS8: &[u8] = &[48,46,2,1,0,48,5,6,3,43,101,112,4,34,4,32,129,169,30,68,115,221,153,176,253,201,250,7,41,101,142,68,150,14,190,131,204,198,117,2,190,170,229,243,185,132,78,172];
pub const ED25519_PUBLIC_RAW: &[u8] = &[139,94,39,252,24,129,92,207,12,88,23,37,80,68,185,17,140,199,112,112,1,49,26,109,248,124,183,69,71,241,8,118];
use tls_client_core::enums::{SignatureAlgorithm, SignatureScheme};
use tls_client_core::error::Error;
use tls_client_core::sign::{
    any_ecdsa_type, any_eddsa_type, any_supported_type, PrivateKeyDer, SigningKey,
};

use ring::signature::{
    UnparsedPublicKey, ECDSA_P256_SHA256_ASN1, ECDSA_P384_SHA384_ASN1, ED25519,
    RSA_PKCS1_2048_8192_SHA256,
};

#[test]
fn can_load_ecdsa_nistp256_pkcs8() {
    assert!(any_eddsa_type(P256_PKCS8).is_err());
    let key = PrivateKeyDer::Pkcs8(P256_PKCS8.to_vec());
    assert!(any_supported_type(&key).is_ok());
    assert!(any_ecdsa_type(&key).is_ok());
}

#[test]
fn can_load_ecdsa_nistp256_sec1() {
    let key = PrivateKeyDer::Sec1(P256_SEC1.to_vec());
    assert!(any_supported_type(&key).is_ok());
    assert!(any_ecdsa_type(&key).is_ok());
}

#[test]
fn can_load_ecdsa_nistp384_pkcs8() {
    assert!(any_eddsa_type(P384_PKCS8).is_err());
    let key = PrivateKeyDer::Pkcs8(P384_PKCS8.to_vec());
    assert!(any_supported_type(&key).is_ok());
    assert!(any_ecdsa_type(&key).is_ok());
}

#[test]
fn can_load_ecdsa_nistp384_sec1() {
    let key = PrivateKeyDer::Sec1(P384_SEC1.to_vec());
    assert!(any_supported_type(&key).is_ok());
    assert!(any_ecdsa_type(&key).is_ok());
}

#[test]
fn can_load_eddsa_pkcs8() {
    assert!(any_eddsa_type(ED25519_PKCS8).is_ok());
    let key = PrivateKeyDer::Pkcs8(ED25519_PKCS8.to_vec());
    assert!(any_supported_type(&key).is_ok());
    assert!(any_ecdsa_type(&key).is_err());
}

#[test]
fn can_load_rsa2048_pkcs8() {
    assert!(any_eddsa_type(RSA2048_PKCS8).is_err());
    let key = PrivateKeyDer::Pkcs8(RSA2048_PKCS8.to_vec());
    assert!(any_supported_type(&key).is_ok());
    assert!(any_ecdsa_type(&key).is_err());
}

#[test]
fn can_load_rsa2048_pkcs1() {
    let key = PrivateKeyDer::Pkcs1(RSA2048_PKCS1.to_vec());
    assert!(any_supported_type(&key).is_ok());
    assert!(any_ecdsa_type(&key).is_err());
}

#[test]
fn loaded_key_reports_expected_algorithm() {
    let cases: Vec<(PrivateKeyDer, SignatureAlgorithm)> = vec![
        (PrivateKeyDer::Pkcs1(RSA2048_PKCS1.to_vec()), SignatureAlgorithm::RSA),
        (PrivateKeyDer::Pkcs8(RSA2048_PKCS8.to_vec()), SignatureAlgorithm::RSA),
        (PrivateKeyDer::Pkcs8(P256_PKCS8.to_vec()), SignatureAlgorithm::ECDSA),
        (PrivateKeyDer::Sec1(P256_SEC1.to_vec()), SignatureAlgorithm::ECDSA),
        (PrivateKeyDer::Pkcs8(P384_PKCS8.to_vec()), SignatureAlgorithm::ECDSA),
        (PrivateKeyDer::Sec1(P384_SEC1.to_vec()), SignatureAlgorithm::ECDSA),
        (PrivateKeyDer::Pkcs8(ED25519_PKCS8.to_vec()), SignatureAlgorithm::ED25519),
    ];
    for (der, expected) in cases {
        let key = any_supported_type(&der).unwrap();
        assert_eq!(key.algorithm(), expected);
    }
}

#[test]
fn invalid_der_fails_under_every_encoding_tag() {
    let garbage = vec![0x30u8, 0x82, 0xff, 0xff, 0x00, 0x01, 0x02, 0x03];
    assert!(any_supported_type(&PrivateKeyDer::Pkcs1(garbage.clone())).is_err());
    assert!(any_supported_type(&PrivateKeyDer::Pkcs8(garbage.clone())).is_err());
    assert!(any_supported_type(&PrivateKeyDer::Sec1(garbage.clone())).is_err());
    assert!(any_ecdsa_type(&PrivateKeyDer::Pkcs8(garbage.clone())).is_err());
    assert!(any_eddsa_type(&garbage).is_err());
    let empty: Vec<u8> = Vec::new();
    assert!(any_supported_type(&PrivateKeyDer::Pkcs1(empty.clone())).is_err());
    assert!(any_supported_type(&PrivateKeyDer::Pkcs8(empty.clone())).is_err());
    assert!(any_supported_type(&PrivateKeyDer::Sec1(empty)).is_err());
}

#[test]
fn rsa_prefers_pss_over_presence_order() {
    let key = any_supported_type(&PrivateKeyDer::Pkcs8(RSA2048_PKCS8.to_vec())).unwrap();
    let signer = key
        .choose_scheme(&[SignatureScheme::RSA_PKCS1_SHA256, SignatureScheme::RSA_PSS_SHA256])
        .unwrap();
    assert_eq!(signer.scheme(), SignatureScheme::RSA_PSS_SHA256);
}

#[test]
fn rsa_follows_full_preference_order() {
    let key = any_supported_type(&PrivateKeyDer::Pkcs8(RSA2048_PKCS8.to_vec())).unwrap();
    let all = [
        SignatureScheme::RSA_PKCS1_SHA256,
        SignatureScheme::RSA_PKCS1_SHA384,
        SignatureScheme::RSA_PKCS1_SHA512,
        SignatureScheme::RSA_PSS_SHA256,
        SignatureScheme::RSA_PSS_SHA384,
        SignatureScheme::RSA_PSS_SHA512,
    ];
    let signer = key.choose_scheme(&all).unwrap();
    assert_eq!(signer.scheme(), SignatureScheme::RSA_PSS_SHA512);
    let pkcs1_only = [SignatureScheme::RSA_PKCS1_SHA384, SignatureScheme::RSA_PKCS1_SHA256];
    let signer = key.choose_scheme(&pkcs1_only).unwrap();
    assert_eq!(signer.scheme(), SignatureScheme::RSA_PKCS1_SHA384);
}

#[test]
fn rsa_offered_empty_list_yields_no_signer() {
    let key = any_supported_type(&PrivateKeyDer::Pkcs1(RSA2048_PKCS1.to_vec())).unwrap();
    assert!(key.choose_scheme(&[]).is_none());
}

#[test]
fn p256_rejects_wrong_curve_scheme_and_accepts_its_own() {
    let key = any_supported_type(&PrivateKeyDer::Pkcs8(P256_PKCS8.to_vec())).unwrap();
    assert!(key.choose_scheme(&[SignatureScheme::ECDSA_NISTP384_SHA384]).is_none());
    let signer = key
        .choose_scheme(&[SignatureScheme::ECDSA_NISTP256_SHA256])
        .unwrap();
    assert_eq!(signer.scheme(), SignatureScheme::ECDSA_NISTP256_SHA256);
}

#[test]
fn p384_key_is_fixed_to_its_single_scheme() {
    let key = any_supported_type(&PrivateKeyDer::Pkcs8(P384_PKCS8.to_vec())).unwrap();
    assert!(key.choose_scheme(&[SignatureScheme::ECDSA_NISTP256_SHA256]).is_none());
    assert!(key.choose_scheme(&[SignatureScheme::ED25519]).is_none());
    let signer = key
        .choose_scheme(&[
            SignatureScheme::ECDSA_NISTP256_SHA256,
            SignatureScheme::ECDSA_NISTP384_SHA384,
        ])
        .unwrap();
    assert_eq!(signer.scheme(), SignatureScheme::ECDSA_NISTP384_SHA384);
}

#[test]
fn ed25519_negotiates_only_its_scheme() {
    let key = any_eddsa_type(ED25519_PKCS8).unwrap();
    assert!(key.choose_scheme(&[SignatureScheme::ECDSA_NISTP256_SHA256]).is_none());
    assert!(key.choose_scheme(&[]).is_none());
    let signer = key.choose_scheme(&[SignatureScheme::ED25519]).unwrap();
    assert_eq!(signer.scheme(), SignatureScheme::ED25519);
}

#[test]
fn sec1_and_pkcs8_load_the_same_p256_key() {
    let from_sec1 = any_supported_type(&PrivateKeyDer::Sec1(P256_SEC1.to_vec())).unwrap();
    let from_pkcs8 = any_supported_type(&PrivateKeyDer::Pkcs8(P256_PKCS8.to_vec())).unwrap();
    let offered = [SignatureScheme::ECDSA_NISTP256_SHA256];
    let signer_a = from_sec1.choose_scheme(&offered).unwrap();
    let signer_b = from_pkcs8.choose_scheme(&offered).unwrap();
    assert_eq!(signer_a.scheme(), signer_b.scheme());

    let message = b"signed by one key under two encodings";
    let sig_a = signer_a.sign(message).unwrap();
    let sig_b = signer_b.sign(message).unwrap();
    let public = UnparsedPublicKey::new(&ECDSA_P256_SHA256_ASN1, P256_PUBLIC_UNCOMPRESSED);
    public.verify(message, &sig_a).unwrap();
    public.verify(message, &sig_b).unwrap();
}

#[test]
fn p384_signature_verifies_from_both_encodings() {
    let message = b"p384 transcript bytes";
    for der in [
        PrivateKeyDer::Sec1(P384_SEC1.to_vec()),
        PrivateKeyDer::Pkcs8(P384_PKCS8.to_vec()),
    ] {
        let key = any_ecdsa_type(&der).unwrap();
        let signer = key
            .choose_scheme(&[SignatureScheme::ECDSA_NISTP384_SHA384])
            .unwrap();
        let sig = signer.sign(message).unwrap();
        let public = UnparsedPublicKey::new(&ECDSA_P384_SHA384_ASN1, P384_PUBLIC_UNCOMPRESSED);
        public.verify(message, &sig).unwrap();
    }
}

#[test]
fn rsa_signature_has_modulus_length_and_verifies() {
    let key = any_supported_type(&PrivateKeyDer::Pkcs1(RSA2048_PKCS1.to_vec())).unwrap();
    let signer = key
        .choose_scheme(&[SignatureScheme::RSA_PKCS1_SHA256])
        .unwrap();
    let message = b"rsa signing input";
    let sig = signer.sign(message).unwrap();
    assert_eq!(sig.len(), 256);
    let public = UnparsedPublicKey::new(&RSA_PKCS1_2048_8192_SHA256, RSA2048_PUBLIC_PKCS1);
    public.verify(message, &sig).unwrap();
}

#[test]
fn ed25519_signature_is_64_bytes_and_verifies() {
    let key = any_supported_type(&PrivateKeyDer::Pkcs8(ED25519_PKCS8.to_vec())).unwrap();
    let signer = key.choose_scheme(&[SignatureScheme::ED25519]).unwrap();
    let message = b"ed25519 signing input";
    let sig = signer.sign(message).unwrap();
    assert_eq!(sig.len(), 64);
    let public = UnparsedPublicKey::new(&ED25519, ED25519_PUBLIC_RAW);
    public.verify(message, &sig).unwrap();
}

#[test]
fn signing_error_is_opaque() {
    // The two error values of the crate carry no diagnostic payload.
    assert_eq!(Error::Signing, Error::Signing);
    assert_ne!(Error::Signing, Error::KeyParse);
}

#[test]
fn signer_scheme_is_member_of_offered_list() {
    let keys: Vec<SigningKey> = vec![
        any_supported_type(&PrivateKeyDer::Pkcs1(RSA2048_PKCS1.to_vec())).unwrap(),
        any_supported_type(&PrivateKeyDer::Pkcs8(P256_PKCS8.to_vec())).unwrap(),
        any_supported_type(&PrivateKeyDer::Pkcs8(P384_PKCS8.to_vec())).unwrap(),
        any_supported_type(&PrivateKeyDer::Pkcs8(ED25519_PKCS8.to_vec())).unwrap(),
    ];
    let offered = [
        SignatureScheme::RSA_PSS_SHA256,
        SignatureScheme::ECDSA_NISTP256_SHA256,
        SignatureScheme::ECDSA_NISTP384_SHA384,
        SignatureScheme::ED25519,
    ];
    for key in &keys {
        let signer = key.choose_scheme(&offered).unwrap();
        assert!(offered.contains(&signer.scheme()));
    }
}
