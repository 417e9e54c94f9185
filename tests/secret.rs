use jls::config::{JlsConfig, DEFAULT_SECRET};

fn next(state: &mut u64) -> u64 {
    *state ^= *state << 13;
    *state ^= *state >> 7;
    *state ^= *state << 17;
    *state
}

#[test]
fn new_keeps_password_and_iv() {
    let c = JlsConfig::new("pwd1", "iv1");
    assert_eq!(c.user_pwd, "pwd1");
    assert_eq!(c.user_iv, "iv1");
}

#[test]
fn default_uses_fixed_secret() {
    let c = JlsConfig::default();
    assert_eq!(c.user_pwd, DEFAULT_SECRET);
    assert_eq!(c.user_iv, "3070111071563328618171495819203123318");
}

#[test]
fn round_trip_accepts() {
    let c = JlsConfig::new("pwd1", "iv1");
    let contexts: Vec<Vec<u8>> = vec![vec![], vec![1, 2, 3], vec![0xab; 300]];
    for ctx in contexts.iter() {
        for seed in 0u8..8 {
            let random = [seed; 16];
            let fake = c.build_fake_random(&random, ctx);
            assert!(c.check_fake_random(&fake, ctx));
        }
    }
}

#[test]
fn build_is_deterministic() {
    let c = JlsConfig::new("pwd1", "iv1");
    let random = [7u8; 16];
    let a = c.build_fake_random(&random, b"context");
    let b = JlsConfig::new("pwd1", "iv1").build_fake_random(&random, b"context");
    assert_eq!(a, b);
}

#[test]
fn fake_random_hides_the_random() {
    let c = JlsConfig::new("pwd1", "iv1");
    let random = [0u8; 16];
    let fake = c.build_fake_random(&random, b"ctx");
    assert_ne!(&fake[..16], &random[..]);
    assert_ne!(c.build_fake_random(&random, b"ctx2"), fake);
}

#[test]
fn other_secret_rejects() {
    let c = JlsConfig::new("pwd1", "iv1");
    let fake = c.build_fake_random(&[3u8; 16], b"ctx");
    assert!(!JlsConfig::new("pwd2", "iv1").check_fake_random(&fake, b"ctx"));
    assert!(!JlsConfig::new("pwd1", "iv2").check_fake_random(&fake, b"ctx"));
    assert!(!JlsConfig::default().check_fake_random(&fake, b"ctx"));
}

#[test]
fn ordinary_random_rejects() {
    let c = JlsConfig::new("pwd1", "iv1");
    assert!(!c.check_fake_random(&[0u8; 32], b"ctx"));
    assert!(!c.check_fake_random(&[0x5au8; 32], b""));
}

#[test]
fn single_bit_flips_reject() {
    let c = JlsConfig::new("pwd1", "iv1");
    let mut state: u64 = 0x9e3779b97f4a7c15;
    let mut trials = 0u32;
    while trials < 10_000 {
        let mut random = [0u8; 16];
        for b in random.iter_mut() {
            *b = next(&mut state) as u8;
        }
        let mut ctx = vec![0u8; 1 + (next(&mut state) % 64) as usize];
        for b in ctx.iter_mut() {
            *b = next(&mut state) as u8;
        }
        let fake = c.build_fake_random(&random, &ctx);
        if trials % 2 == 0 {
            let bit = (next(&mut state) % 256) as usize;
            let mut tampered = fake;
            tampered[bit / 8] ^= 1 << (bit % 8);
            assert!(!c.check_fake_random(&tampered, &ctx));
        } else {
            let bit = (next(&mut state) % (ctx.len() as u64 * 8)) as usize;
            let mut tampered = ctx.clone();
            tampered[bit / 8] ^= 1 << (bit % 8);
            assert!(!c.check_fake_random(&fake, &tampered));
        }
        trials += 1;
    }
}
