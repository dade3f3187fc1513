use llama2_core::attention::{att_offset, key_offset, kv_head, query_offset};
use llama2_core::config::{Config, RawHeader};
use llama2_core::error::{LoadError, RangeError};
use llama2_core::loader::parse_checkpoint;
use llama2_core::state::{check_position, check_step, check_token, filled, slot_offset, RunState};
use llama2_core::transformer::{state_fits, Transformer};

fn config(fields: [i32; 7]) -> Config {
    let mut b = Vec::new();
    for f in fields.iter() {
        b.extend_from_slice(&f.to_le_bytes());
    }
    Config::from_header(RawHeader::decode(&b).unwrap()).unwrap()
}

fn small() -> Config {
    config([8, 16, 1, 2, 2, 10, 4])
}

#[test]
fn run_state_lengths_follow_config() {
    let c = small();
    let s: RunState<f32> = RunState::new(&c, 0.0);
    assert_eq!(s.x.len(), 8);
    assert_eq!(s.xb.len(), 8);
    assert_eq!(s.xb2.len(), 8);
    assert_eq!(s.hb.len(), 16);
    assert_eq!(s.hb2.len(), 16);
    assert_eq!(s.q.len(), 8);
    assert_eq!(s.k.len(), 8);
    assert_eq!(s.v.len(), 8);
    assert_eq!(s.att.len(), 8);
    assert_eq!(s.logits.len(), 10);
    assert_eq!(s.key_cache.len(), 32);
    assert_eq!(s.value_cache.len(), 32);
    assert!(s.key_cache.iter().all(|e| *e == 0.0));
}

#[test]
fn grouped_run_state_lengths() {
    let c = config([16, 32, 3, 4, 2, -7, 5]);
    let s: RunState<u32> = RunState::new(&c, 9);
    assert_eq!(s.k.len(), 8);
    assert_eq!(s.att.len(), 20);
    assert_eq!(s.logits.len(), 7);
    assert_eq!(s.key_cache.len(), 3 * 5 * 8);
    assert_eq!(s.value_cache.len(), 3 * 5 * 8);
    assert!(s.value_cache.iter().all(|e| *e == 9));
}

#[test]
fn position_at_seq_len_is_range_error() {
    let c = small();
    assert_eq!(check_position(&c, 3), Ok(()));
    assert_eq!(check_position(&c, 4), Err(RangeError::Position { position: 4, seq_len: 4 }));
    assert_eq!(check_position(&c, usize::MAX), Err(RangeError::Position { position: usize::MAX, seq_len: 4 }));
    assert_eq!(check_token(&c, 10), Err(RangeError::Token { token: 10, vocab_size: 10 }));
    assert_eq!(check_step(&c, 10, 4), Err(RangeError::Position { position: 4, seq_len: 4 }));
    assert_eq!(check_step(&c, 10, 0), Err(RangeError::Token { token: 10, vocab_size: 10 }));
    assert_eq!(check_step(&c, 9, 3), Ok(()));
}

#[test]
fn out_of_range_write_leaves_cache() {
    let c = small();
    let mut s: RunState<i32> = RunState::new(&c, 0);
    s.k = filled(5, 8);
    assert_eq!(s.write_kv(&c, 0, 4), Err(RangeError::Position { position: 4, seq_len: 4 }));
    assert_eq!(s.write_kv(&c, 1, 0), Err(RangeError::Layer { layer: 1, n_layers: 1 }));
    assert!(s.key_cache.iter().all(|e| *e == 0));
}

#[test]
fn repeated_write_overwrites_slot() {
    let c = config([8, 16, 2, 2, 2, 10, 4]);
    let mut s: RunState<i32> = RunState::new(&c, 0);
    s.k = (1..=8).collect();
    s.v = (11..=18).collect();
    s.write_kv(&c, 1, 2).unwrap();
    let once_k = s.key_cache.clone();
    let once_v = s.value_cache.clone();
    s.write_kv(&c, 1, 2).unwrap();
    assert_eq!(s.key_cache, once_k);
    assert_eq!(s.value_cache, once_v);
    assert_eq!(s.key_cache.len(), 64);
    let start = slot_offset(&c, 1, 2);
    assert_eq!(start, 48);
    assert_eq!(&s.key_cache[48..56], &[1, 2, 3, 4, 5, 6, 7, 8]);
    assert_eq!(&s.value_cache[48..56], &[11, 12, 13, 14, 15, 16, 17, 18]);
    assert!(s.key_cache[..48].iter().all(|e| *e == 0));
    assert!(s.key_cache[56..].iter().all(|e| *e == 0));
}

#[test]
fn reset_clears_later_positions() {
    let c = config([8, 16, 2, 2, 2, 10, 4]);
    let mut s: RunState<i32> = RunState::new(&c, 0);
    s.key_cache = filled(7, 64);
    s.value_cache = filled(3, 64);
    s.reset_cache_from(&c, 2, 0);
    for j in 0..64 {
        let pos = (j / 8) % 4;
        assert_eq!(s.key_cache[j], if pos >= 2 { 0 } else { 7 });
        assert_eq!(s.value_cache[j], if pos >= 2 { 0 } else { 3 });
    }
}

#[test]
fn grouped_heads_share_kv_heads() {
    let c = config([16, 32, 2, 4, 2, 10, 4]);
    assert_eq!(c.group(), 2);
    assert_eq!(kv_head(&c, 0), 0);
    assert_eq!(kv_head(&c, 1), 0);
    assert_eq!(kv_head(&c, 2), 1);
    assert_eq!(kv_head(&c, 3), 1);
    assert_eq!(query_offset(&c, 3), 12);
    assert_eq!(key_offset(&c, 1, 2, 3), (4 + 2) * 8 + 4);
    assert_eq!(att_offset(&c, 3), 12);
}

#[test]
fn full_kv_heads_map_one_to_one() {
    let c = config([16, 32, 2, 4, 4, 10, 4]);
    assert_eq!(c.kv_dim(), 16);
    for h in 0..4 {
        assert_eq!(kv_head(&c, h), h);
        assert_eq!(key_offset(&c, 1, 3, h), slot_offset(&c, 1, 3) + query_offset(&c, h));
    }
}

#[test]
fn transformer_from_checkpoint() {
    let mut b = Vec::new();
    for f in [8i32, 16, 1, 2, 2, 10, 4].iter() {
        b.extend_from_slice(&f.to_le_bytes());
    }
    let ck = parse_checkpoint(&b, 3004).unwrap();
    let t: Transformer<f32> = Transformer::new(ck, 0.0).unwrap();
    assert_eq!(t.config(), ck.config);
    assert_eq!(t.layout(), ck.layout);
    assert_eq!(t.state.logits.len(), 10);
    assert_eq!(t.check_step(0, 4), Err(RangeError::Position { position: 4, seq_len: 4 }));
    assert_eq!(t.check_step(0, 0), Ok(()));
}

#[test]
fn oversized_state_is_refused() {
    let big = i32::MAX;
    let fields = [8i32, 1, big, 1, 1, 1, big];
    let c = config(fields);
    assert!(!state_fits(&c));
    assert!(state_fits(&small()));
    let mut b = Vec::new();
    for f in fields.iter() {
        b.extend_from_slice(&f.to_le_bytes());
    }
    let l = big as u64;
    let body = 8 + 2 * l * 8 + 2 * l * 64 + 2 * l * 64 + 3 * l * 8 + 8;
    let ck = parse_checkpoint(&b, 28 + 4 * body).unwrap();
    assert!(matches!(Transformer::<u8>::new(ck, 0), Err(LoadError::StateTooLarge)));
}
