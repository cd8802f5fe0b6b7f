use mithaq::certificate::certificate_id;
use soroban_sdk::Env;

#[test]
fn certificate_id_is_sha256_of_big_endian_id() {
    let env = Env::default();
    let id = certificate_id(&env, 1);
    assert_eq!(
        id,
        vec![
            205, 38, 98, 21, 78, 109, 118, 178, 178, 185, 46, 112, 192, 202, 195, 204, 245, 52, 249, 183, 78, 181,
            184, 152, 25, 236, 80, 144, 131, 208, 10, 80
        ]
    );
    let id = certificate_id(&env, 258);
    assert_eq!(
        id,
        vec![
            56, 21, 38, 37, 219, 100, 251, 96, 111, 195, 53, 22, 196, 216, 71, 114, 73, 56, 89, 208, 56, 179, 159, 27,
            116, 102, 121, 163, 44, 167, 176, 14
        ]
    );
}
