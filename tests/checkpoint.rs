use llama2_core::config::{read_i32_le, Config, RawHeader, HEADER_BYTES};
use llama2_core::error::{ConfigFault, LoadError};
use llama2_core::layout::{body_elem_count, Classifier, TensorRange, WeightLayout};
use llama2_core::loader::{check_file_len, parse_checkpoint};

fn header_bytes(fields: [i32; 7]) -> Vec<u8> {
    let mut b = Vec::new();
    for f in fields.iter() {
        b.extend_from_slice(&f.to_le_bytes());
    }
    b
}

fn small_fields(vocab: i32) -> [i32; 7] {
    [8, 16, 1, 2, 2, vocab, 4]
}

fn raw(fields: [i32; 7]) -> RawHeader {
    RawHeader::decode(&header_bytes(fields)).unwrap()
}

#[test]
fn reads_little_endian_integers() {
    assert_eq!(read_i32_le(&[1, 0, 0, 0], 0), 1);
    assert_eq!(read_i32_le(&[0x78, 0x56, 0x34, 0x12], 0), 0x1234_5678);
    assert_eq!(read_i32_le(&[0xff, 0xff, 0xff, 0xff], 0), -1);
    assert_eq!(read_i32_le(&[0, 0, 0, 0x80], 0), i32::MIN);
    assert_eq!(read_i32_le(&[9, 9, 0xf6, 0xff, 0xff, 0xff], 2), -10);
}

#[test]
fn decodes_header_fields_in_order() {
    let h = raw([8, 16, 1, 2, 2, -10, 4]);
    assert_eq!(
        h,
        RawHeader { dim: 8, hidden_dim: 16, n_layers: 1, n_heads: 2, n_kv_heads: 2, vocab_size: -10, seq_len: 4 }
    );
}

#[test]
fn short_header_is_truncated() {
    let b = header_bytes(small_fields(10));
    assert_eq!(RawHeader::decode(&b[..27]), Err(LoadError::HeaderTruncated { len: 27 }));
    assert_eq!(RawHeader::decode(&[]), Err(LoadError::HeaderTruncated { len: 0 }));
    assert_eq!(HEADER_BYTES, 28);
}

#[test]
fn positive_vocab_shares_classifier() {
    let c = Config::from_header(raw(small_fields(10))).unwrap();
    assert_eq!(c.vocab_size, 10);
    assert!(c.shared_classifier);
    assert_eq!(c.head_dim(), 4);
    assert_eq!(c.kv_dim(), 8);
    assert_eq!(c.group(), 1);
}

#[test]
fn negative_vocab_owns_classifier() {
    let c = Config::from_header(raw(small_fields(-10))).unwrap();
    assert_eq!(c.vocab_size, 10);
    assert!(!c.shared_classifier);
    let c = Config::from_header(raw([8, 16, 1, 2, 2, i32::MIN, 4])).unwrap();
    assert_eq!(c.vocab_size, 0x8000_0000);
}

#[test]
fn each_config_fault_is_reported() {
    let cases: [([i32; 7], ConfigFault); 9] = [
        ([0, 16, 1, 2, 2, 10, 4], ConfigFault::NotPositive),
        ([8, 16, 1, 0, 2, 10, 4], ConfigFault::NotPositive),
        ([8, 16, 1, 2, -2, 10, 4], ConfigFault::NotPositive),
        ([8, 16, 1, 2, 2, 10, 0], ConfigFault::NotPositive),
        ([8, 16, 1, 2, 2, 0, 4], ConfigFault::EmptyVocabulary),
        ([8, 16, 1, 2, 4, 10, 4], ConfigFault::KvHeadsExceedHeads),
        ([12, 16, 1, 3, 2, 10, 4], ConfigFault::HeadsNotGrouped),
        ([10, 16, 1, 4, 2, 10, 4], ConfigFault::DimNotDivisible),
        ([6, 16, 1, 2, 2, 10, 4], ConfigFault::OddHeadDim),
    ];
    for (fields, fault) in cases.iter() {
        assert_eq!(Config::from_header(raw(*fields)), Err(LoadError::InvalidConfig(*fault)));
    }
}

#[test]
fn body_size_of_small_model() {
    let shared = Config::from_header(raw(small_fields(10))).unwrap();
    assert_eq!(body_elem_count(&shared), 744);
    let owned = Config::from_header(raw(small_fields(-10))).unwrap();
    assert_eq!(body_elem_count(&owned), 824);
}

#[test]
fn layout_of_small_model() {
    let c = Config::from_header(raw(small_fields(-10))).unwrap();
    let l = WeightLayout::new(&c);
    assert_eq!(l.token_embedding_table, TensorRange { start: 0, len: 80 });
    assert_eq!(l.rms_att_weight, TensorRange { start: 80, len: 8 });
    assert_eq!(l.rms_ffn_weight, TensorRange { start: 88, len: 8 });
    assert_eq!(l.wq, TensorRange { start: 96, len: 64 });
    assert_eq!(l.wk, TensorRange { start: 160, len: 64 });
    assert_eq!(l.wv, TensorRange { start: 224, len: 64 });
    assert_eq!(l.wo, TensorRange { start: 288, len: 64 });
    assert_eq!(l.w1, TensorRange { start: 352, len: 128 });
    assert_eq!(l.w2, TensorRange { start: 480, len: 128 });
    assert_eq!(l.w3, TensorRange { start: 608, len: 128 });
    assert_eq!(l.rms_final_weight, TensorRange { start: 736, len: 8 });
    assert_eq!(l.classifier, Classifier::Owned(TensorRange { start: 744, len: 80 }));
    assert_eq!(l.classifier_range(), TensorRange { start: 744, len: 80 });
}

#[test]
fn grouped_kv_projection_is_narrower() {
    let c = Config::from_header(raw([16, 32, 2, 4, 2, 10, 4])).unwrap();
    assert_eq!(c.kv_dim(), 8);
    let l = WeightLayout::new(&c);
    assert_eq!(l.wk.len, 2 * 16 * 8);
    assert_eq!(l.wv.len, 2 * 16 * 8);
    assert_eq!(l.wq.len, 2 * 16 * 16);
}

#[test]
fn shared_classifier_is_embedding_view() {
    let b = header_bytes(small_fields(10));
    let ck = parse_checkpoint(&b, 3004).unwrap();
    assert_eq!(ck.layout.classifier, Classifier::SharedWithEmbedding);
    assert_eq!(ck.layout.classifier_range(), ck.layout.token_embedding_table);
}

#[test]
fn exact_file_length_loads() {
    let b = header_bytes(small_fields(-10));
    let ck = parse_checkpoint(&b, 3324).unwrap();
    assert_eq!(ck.config.dim, 8);
    assert_eq!(ck.config.seq_len, 4);
    assert_eq!(ck.layout.rms_final_weight, TensorRange { start: 736, len: 8 });
}

#[test]
fn one_byte_short_is_size_mismatch() {
    let b = header_bytes(small_fields(10));
    assert_eq!(parse_checkpoint(&b, 3003), Err(LoadError::SizeMismatch { expected: 3004, actual: 3003 }));
    assert_eq!(parse_checkpoint(&b, 3005), Err(LoadError::SizeMismatch { expected: 3004, actual: 3005 }));
    let c = Config::from_header(raw(small_fields(10))).unwrap();
    assert_eq!(check_file_len(&c, 3003), Err(LoadError::SizeMismatch { expected: 3004, actual: 3003 }));
    assert!(check_file_len(&c, 3004).is_ok());
}

#[test]
fn parse_reports_header_faults_first() {
    let b = header_bytes(small_fields(10));
    assert_eq!(parse_checkpoint(&b[..20], 3004), Err(LoadError::HeaderTruncated { len: 20 }));
    let bad = header_bytes([8, 16, 1, 0, 2, 10, 4]);
    assert_eq!(parse_checkpoint(&bad, 3004), Err(LoadError::InvalidConfig(ConfigFault::NotPositive)));
}

#[test]
fn per_layer_slice() {
    let t = TensorRange { start: 96, len: 3 * 64 };
    assert_eq!(t.part(0, 3), TensorRange { start: 96, len: 64 });
    assert_eq!(t.part(2, 3), TensorRange { start: 224, len: 64 });
    let emb = TensorRange { start: 0, len: 80 };
    assert_eq!(emb.part(7, 10), TensorRange { start: 56, len: 8 });
}
