use bigbytesdb::attach_table::{set_option, RealAttachTableHandler, SnapshotSummary, TableStatistics};
use bigbytesdb::enterprise::RealDatamaskHandler;
use bigbytesdb::hilbert_lut::{generate_hilbert_lut, hilbert_lut_module};
use bigbytesdb::kvapi::UnknownError;
use bigbytesdb::meta_errors::{
    kv_data_or_not_found, not_found_error, ForwardRPCError, MetaAPIError, MetaDataError, MetaNetworkError,
};
use bigbytesdb::principal::network_policy_ident;
use bigbytesdb::schema::{validate_function_arg, Scalar, TableArgs};
use bigbytesdb::text::{parse_usize, u64_to_string};
use bigbytesdb::{ErrorCode, NodeErrorType};

#[test]
fn forwarded_errors_become_api_errors() {
    let net = MetaNetworkError::ConnectionError("down".to_string());
    let e: MetaAPIError = ForwardRPCError::NetworkError(net).into();
    assert_eq!(e, MetaAPIError::NetworkError(MetaNetworkError::ConnectionError("down".to_string())));
    let remote = ForwardRPCError::RemoteError(MetaAPIError::DataError(MetaDataError::WriteError("w".to_string())));
    let e: MetaAPIError = remote.into();
    assert_eq!(e, MetaAPIError::RemoteError(MetaDataError::WriteError("w".to_string())));
    let leader = ForwardRPCError::RemoteError(MetaAPIError::ForwardToLeader { leader_id: Some(2) });
    let e: MetaAPIError = leader.into();
    assert_eq!(e, MetaAPIError::ForwardToLeader { leader_id: Some(2) });
}

#[test]
fn missing_kv_data_is_a_read_error() {
    match not_found_error("get_kv_data") {
        MetaAPIError::DataError(MetaDataError::ReadError(r)) => {
            assert_eq!(r.action, "get_kv_data");
            assert_eq!(r.msg, "not found");
        }
        other => panic!("unexpected {:?}", other),
    }
    assert_eq!(kv_data_or_not_found(Some(vec![1, 2]), "x"), Ok(vec![1, 2]));
}

#[test]
fn node_error_gives_its_code() {
    let e = NodeErrorType::AsyncProcessError(ErrorCode::Internal("boom".to_string()));
    assert_eq!(e.get_error_code(), ErrorCode::Internal("boom".to_string()));
    assert_eq!(e.get_error_code().message(), "boom");
}

#[test]
fn numbers_render_and_parse() {
    assert_eq!(u64_to_string(0), "0");
    assert_eq!(u64_to_string(18446744073709551615), "18446744073709551615");
    assert_eq!(parse_usize("42"), Some(42));
    assert_eq!(parse_usize("+7"), Some(7));
    assert_eq!(parse_usize(""), None);
    assert_eq!(parse_usize("+"), None);
    assert_eq!(parse_usize("-1"), None);
    assert_eq!(parse_usize("1a"), None);
    assert_eq!(parse_usize("99999999999999999999999"), None);
    assert_eq!(parse_usize(&u64_to_string(123456)), Some(123456));
}

#[test]
fn function_argument_counts() {
    assert_eq!(validate_function_arg("f", 2, Some((1, 3)), 0), Ok(()));
    assert_eq!(
        validate_function_arg("f", 1, None, 2),
        Err(ErrorCode::NumberArgumentsNotMatch("Function `f` expect to have 2 arguments, but got 1".to_string()))
    );
    let args = TableArgs::new_positioned(vec![Scalar::String("a".to_string())]);
    assert_eq!(args.expect_all_positioned("f", None).unwrap().len(), 1);
}

#[test]
fn hilbert_tables_are_written_sixteen_to_a_line() {
    let vals: Vec<u16> = (0..18).collect();
    let code = generate_hilbert_lut(2, &vals);
    assert_eq!(
        code,
        "const LUT_2: [u16; 18] = [\n    0, 1, 2, 3, 4, 5, 6, 7, 8, 9, 10, 11, 12, 13, 14, 15,\n    16, 17,\n];"
    );
    assert_eq!(generate_hilbert_lut(3, &vec![]), "const LUT_3: [u16; 0] = [\n    \n];");
    let m = hilbert_lut_module(&vec![1], &vec![2], &vec![3], &vec![4]);
    assert!(m.starts_with("\npub static LUT: LazyLock<Vec<&'static [u16]>> = LazyLock::new(|| vec![&LUT_2, &LUT_3, &LUT_4, &LUT_5]);\n\nconst LUT_2"));
    assert!(m.ends_with("const LUT_5: [u16; 1] = [\n    4,\n];"));
}

#[test]
fn attached_table_meta_from_snapshot() {
    assert_eq!(RealAttachTableHandler::snapshot_hint_path("s3://b/t"), "s3://b/t/last_snapshot_location_hint");
    let summary = SnapshotSummary {
        row_count: 10,
        block_count: 2,
        uncompressed_byte_size: 1000,
        compressed_byte_size: 300,
        index_size: 50,
    };
    let m = RealAttachTableHandler::attached_table_meta(
        "FUSE",
        vec![("a".to_string(), "1".to_string()), ("snapshot_location".to_string(), "old".to_string())],
        "1/2/_ss/x.json",
        3,
        summary,
        4,
    );
    assert_eq!(m.engine, "FUSE");
    assert_eq!(
        m.options,
        vec![("a".to_string(), "1".to_string()), ("snapshot_location".to_string(), "1/2/_ss/x.json".to_string())]
    );
    assert_eq!(m.field_comments, vec!["", "", ""]);
    assert_eq!(
        m.statistics,
        TableStatistics {
            number_of_rows: 10,
            data_bytes: 1000,
            compressed_data_bytes: 300,
            index_data_bytes: 50,
            number_of_segments: Some(4),
            number_of_blocks: Some(2),
        }
    );
    let mut opts = vec![];
    set_option(&mut opts, "k", "v");
    assert_eq!(opts, vec![("k".to_string(), "v".to_string())]);
}

#[test]
fn data_mask_outcomes() {
    let missing: UnknownError<network_policy_ident::Resource> = UnknownError::new("m1", "drop data mask");
    assert!(RealDatamaskHandler::drop_data_mask_outcome(true, false, missing).is_ok());
    let missing: UnknownError<network_policy_ident::Resource> = UnknownError::new("m1", "drop data mask");
    assert!(RealDatamaskHandler::drop_data_mask_outcome(false, true, missing).is_ok());
    let missing: UnknownError<network_policy_ident::Resource> = UnknownError::new("m1", "drop data mask");
    assert_eq!(
        RealDatamaskHandler::drop_data_mask_outcome(false, false, missing),
        Err(ErrorCode::UnknownDatamask("Unknown NetworkPolicyIdent 'm1': drop data mask".to_string()))
    );
    let missing: UnknownError<network_policy_ident::Resource> = UnknownError::new("m2", "get data mask");
    assert_eq!(RealDatamaskHandler::get_data_mask_outcome(Some(5), missing), Ok(5));
    let missing: UnknownError<network_policy_ident::Resource> = UnknownError::new("m2", "get data mask");
    assert!(RealDatamaskHandler::get_data_mask_outcome::<u8, _>(None, missing).is_err());
}

#[test]
fn snapshot_location_strips_the_storage_root() {
    assert_eq!(
        RealAttachTableHandler::snapshot_location(b"/data/root/1/2/_ss/x.json".to_vec(), "/data/root/"),
        Some("1/2/_ss/x.json".to_string())
    );
    assert_eq!(RealAttachTableHandler::snapshot_location(b"abc".to_vec(), ""), Some("abc".to_string()));
    assert_eq!(RealAttachTableHandler::snapshot_location(vec![0xff, 0x41], ""), None);
    assert_eq!(RealAttachTableHandler::snapshot_location(vec![0xff], "toolong"), None);
}

#[test]
fn attach_request_carries_name_option_params_and_schema() {
    use_attach_request();
}

fn use_attach_request() {
    let summary = SnapshotSummary {
        row_count: 1,
        block_count: 1,
        uncompressed_byte_size: 2,
        compressed_byte_size: 1,
        index_size: 0,
    };
    let req = RealAttachTableHandler::build_attach_table_request(
        bigbytesdb::interpreters::CreateOption::CreateIfNotExists,
        bigbytesdb::Tenant::new_literal("t1"),
        "db1",
        "tb1",
        "FUSE",
        "s3://bucket",
        vec![],
        "1/_ss/x.json",
        vec!["a", "b"],
        2,
        summary,
        1,
    );
    assert_eq!(req.create_option, bigbytesdb::interpreters::CreateOption::CreateIfNotExists);
    assert_eq!(req.tenant.tenant_name(), "t1");
    assert_eq!((req.db_name.as_str(), req.table_name.as_str()), ("db1", "tb1"));
    assert!(!req.as_dropped);
    assert_eq!(req.storage_params, Some("s3://bucket"));
    assert_eq!(req.schema, vec!["a", "b"]);
    assert_eq!(req.meta.engine, "FUSE");
    assert_eq!(req.meta.options, vec![("snapshot_location".to_string(), "1/_ss/x.json".to_string())]);
    assert_eq!(req.meta.field_comments, vec!["", ""]);
}
