use floresta::control::{get_memory_info, AllocatorStats, GetMemInfoRes, MallInfo, ZoneStatistics, ControlError, ActiveCommand};
use floresta::network::{addnode_command, disconnect_target, local_services, peer_address, check_disconnected, AddnodeCommand, DisconnectTarget, NetworkRpcError};
use floresta::request::{finish_param, locate_param, or_default_if_missing, try_into_optional, ArgParseError, ParamKey, ParamsShape};
use floresta::rpc_error::JsonRpcError;
use floresta::version::parse_mmmmpp;
use floresta::wire_error::AddrParseError;

fn glibc_stats() -> AllocatorStats {
    AllocatorStats::Glibc(MallInfo { uordblks: 100, fordblks: 50, hblkhd: 7, ordblks: 3, smblks: 2 })
}

#[test]
fn renders_the_message_the_client_receives() {
    let err = JsonRpcError::MissingParameter("height".to_string());

    assert_eq!(err.to_string(), err.rpc_error().message + ": height");
}

#[test]
fn parse_mmmmpp_encodes_semver_correctly() {
    assert_eq!(parse_mmmmpp("0.9.0-rc1"), 900);
    assert_eq!(parse_mmmmpp("23.1.5"), 230_105);
    assert_eq!(parse_mmmmpp("1.2"), 10_200);
    assert_eq!(parse_mmmmpp("1"), 10_000);
}

#[test]
fn parse_mmmmpp_gives_zero_for_malformed_versions() {
    assert_eq!(parse_mmmmpp(""), 0);
    assert_eq!(parse_mmmmpp("x.y.z"), 0);
    assert_eq!(parse_mmmmpp("x.1.2"), 0);
    assert_eq!(parse_mmmmpp("-1.2.3"), 0);
    assert_eq!(parse_mmmmpp("1..7abc"), 0);
    assert_eq!(parse_mmmmpp("1.2.+7"), 0);
    assert_eq!(parse_mmmmpp("1.2.rc1"), 0);
    assert_eq!(parse_mmmmpp("1."), 0);
    assert_eq!(parse_mmmmpp("+2.+3.4"), 20_304);
    assert_eq!(parse_mmmmpp("1.2.3.4"), 10_203);
}

#[test]
fn parse_mmmmpp_saturates() {
    assert_eq!(parse_mmmmpp("18446744073709551615.0.0"), usize::MAX);
    assert_eq!(parse_mmmmpp("18446744073709551616.1.0"), 0);
    assert_eq!(parse_mmmmpp("0.0.99999999999999999999999"), 0);
}

#[test]
fn arg_parse_errors_map_onto_the_client_facing_error() {
    let missing = ArgParseError::Missing {
        field: "height".to_string(),
    };
    assert!(missing.to_string().contains("height"));
    assert!(matches!(
        JsonRpcError::from(missing),
        JsonRpcError::MissingParameter(f) if f == "height"
    ));

    let wrong = ArgParseError::WrongType {
        field: "verbosity".to_string(),
        reason: "expected u8".to_string(),
    };
    assert!(matches!(
        JsonRpcError::from(wrong),
        JsonRpcError::InvalidParameterType(d) if d.starts_with("verbosity")
    ));

    let bad = ArgParseError::BadStructure {
        got: "\"a string\"".to_string(),
    };
    assert!(matches!(
        JsonRpcError::from(bad),
        JsonRpcError::InvalidParameterStructure(_)
    ));
}

#[test]
fn arg_parse_error_messages() {
    let wrong = ArgParseError::WrongType { field: "verbosity".to_string(), reason: "expected u8".to_string() };
    assert_eq!(wrong.to_string(), "parameter verbosity has the wrong type: expected u8");
    assert!(matches!(
        JsonRpcError::from_arg_parse_error(wrong),
        JsonRpcError::InvalidParameterType(d) if d == "verbosity: expected u8"
    ));
    let bad = ArgParseError::BadStructure { got: "7".to_string() };
    assert_eq!(bad.to_string(), "params must be an array or an object, got 7");
    let missing = ArgParseError::Missing { field: "height".to_string() };
    assert_eq!(missing.to_string(), "missing parameter: height");
}

#[test]
fn propagates_missing_parameter_on_null_params() {
    let err = locate_param(ParamsShape::Null, 0, "height").map(|_| ()).unwrap_err();
    match JsonRpcError::from_arg_parse_error(err) {
        JsonRpcError::MissingParameter(field) => assert_eq!(field, "height"),
        other => panic!("expected MissingParameter, got {}", other.to_string()),
    }
}

#[test]
fn propagates_missing_parameter_when_index_absent() {
    assert!(matches!(locate_param(ParamsShape::Array, 0, "height"), Ok(ParamKey::Position(0))));
    let err = finish_param::<u32>("height", None).unwrap_err();
    assert!(matches!(err, JsonRpcError::MissingParameter(f) if f == "height"));
}

#[test]
fn propagates_invalid_parameter_structure() {
    let shape = ParamsShape::Other("\"a bare string\"".to_string());
    let err = locate_param(shape, 0, "height").map(|_| ()).unwrap_err();
    match JsonRpcError::from_arg_parse_error(err) {
        JsonRpcError::InvalidParameterStructure(got) => assert!(got.contains("a bare string")),
        other => panic!("expected InvalidParameterStructure, got {}", other.to_string()),
    }
}

#[test]
fn propagates_invalid_parameter_type() {
    let decoded: Option<Result<u32, String>> =
        Some(Err("invalid type: string \"not a number\", expected u32".to_string()));
    match finish_param("height", decoded).unwrap_err() {
        JsonRpcError::InvalidParameterType(detail) => assert!(detail.starts_with("height")),
        other => panic!("expected InvalidParameterType, got {}", other.to_string()),
    }
}

#[test]
fn resolves_named_parameters_by_field() {
    match locate_param(ParamsShape::Object, 0, "height") {
        Ok(ParamKey::Name(n)) => assert_eq!(n, "height"),
        _ => panic!("named parameters are looked up by name"),
    }
    assert_eq!(finish_param::<u32>("height", Some(Ok(42))).unwrap(), 42);
    assert!(matches!(
        finish_param::<u32>("missing", None).unwrap_err(),
        JsonRpcError::MissingParameter(_)
    ));
}

#[test]
fn try_into_optional_only_swallows_missing() {
    let missing = finish_param::<u32>("height", None);
    assert_eq!(try_into_optional(missing).unwrap(), None);

    let wrong_type = finish_param::<u32>("height", Some(Err("nope".to_string())));
    assert!(matches!(
        try_into_optional(wrong_type).unwrap_err(),
        JsonRpcError::InvalidParameterType(_)
    ));
    assert_eq!(try_into_optional(Ok::<u32, JsonRpcError>(5)).unwrap(), Some(5));
}

#[test]
fn get_with_default_does_not_mask_type_errors() {
    assert_eq!(
        or_default_if_missing(finish_param::<u32>("verbosity", None), 1_u32).unwrap(),
        1
    );

    let err = or_default_if_missing(
        finish_param::<u32>("verbosity", Some(Err("nope".to_string()))),
        1_u32,
    )
    .unwrap_err();
    assert!(matches!(err, JsonRpcError::InvalidParameterType(_)));
}

#[test]
fn json_rpc_error_codes_and_renderings() {
    let e = JsonRpcError::PeerNotFound;
    assert_eq!(e.to_string(), "Peer not found");
    assert_eq!(e.rpc_error().code, -29);
    assert!(e.rpc_error().data.is_none());
    let n = JsonRpcError::Node("boom".to_string());
    assert_eq!(n.to_string(), "Node error: boom");
    assert_eq!(n.rpc_error().code, -1);
    assert_eq!(n.rpc_error().data.as_deref(), Some("boom"));
    assert_eq!(JsonRpcError::InvalidParameterType("x".to_string()).rpc_error().code, -32602);
    assert_eq!(JsonRpcError::InvalidMemInfoMode.rpc_error().code, -8);
}

#[test]
fn propagates_invalid_mem_info_mode() {
    for mode in ["", "bogus", "STATS", "malloc"] {
        let err = get_memory_info(mode, &glibc_stats()).map(|_| ()).unwrap_err();
        assert!(
            matches!(err, JsonRpcError::InvalidMemInfoMode),
            "mode {mode:?} should be rejected"
        );
    }
}

#[test]
fn accepts_the_documented_mem_info_modes() {
    assert!(get_memory_info("stats", &glibc_stats()).is_ok());
    assert!(get_memory_info("mallocinfo", &glibc_stats()).is_ok());
}

#[test]
fn glibc_memory_report() {
    match get_memory_info("stats", &glibc_stats()).ok().unwrap() {
        GetMemInfoRes::Stats(s) => {
            assert_eq!(s.locked.used, 100);
            assert_eq!(s.locked.free, 50);
            assert_eq!(s.locked.total, 150);
            assert_eq!(s.locked.locked, 7);
            assert_eq!(s.locked.chunks_used, 3);
            assert_eq!(s.locked.chunks_free, 2);
        }
        GetMemInfoRes::MallocInfo(_) => panic!("stats mode gives numbers"),
    }
    match get_memory_info("mallocinfo", &glibc_stats()).ok().unwrap() {
        GetMemInfoRes::MallocInfo(x) => assert_eq!(
            x,
            "<malloc version=\"2.0\"><heap nr=\"1\"><allocated>7</allocated><free>100</free><total>50</total><locked>150</locked><chunks nr=\"7\"><used>3</used><free>2</free></chunks></heap></malloc>"
        ),
        GetMemInfoRes::Stats(_) => panic!("mallocinfo mode gives XML"),
    }
}

#[test]
fn glibc_negative_counters_wrap_and_saturate() {
    let stats = AllocatorStats::Glibc(MallInfo { uordblks: i32::MAX, fordblks: 1, hblkhd: -1, ordblks: 0, smblks: 0 });
    match get_memory_info("stats", &stats).ok().unwrap() {
        GetMemInfoRes::Stats(s) => {
            assert_eq!(s.locked.total, i32::MAX as u64);
            assert_eq!(s.locked.locked, u64::MAX);
        }
        GetMemInfoRes::MallocInfo(_) => panic!("stats mode gives numbers"),
    }
    match get_memory_info("mallocinfo", &stats).ok().unwrap() {
        GetMemInfoRes::MallocInfo(x) => assert!(x.starts_with("<malloc version=\"2.0\"><heap nr=\"1\"><allocated>-1</allocated>")),
        GetMemInfoRes::Stats(_) => panic!("mallocinfo mode gives XML"),
    }
}

#[test]
fn zone_and_missing_memory_reports() {
    let zone = AllocatorStats::MallocZone(ZoneStatistics { blocks_in_use: 4, size_in_use: 30, size_allocated: 20 });
    match get_memory_info("stats", &zone).ok().unwrap() {
        GetMemInfoRes::Stats(s) => {
            assert_eq!(s.locked.used, 30);
            assert_eq!(s.locked.free, 0);
            assert_eq!(s.locked.total, 20);
            assert_eq!(s.locked.chunks_used, 4);
        }
        GetMemInfoRes::MallocInfo(_) => panic!("stats mode gives numbers"),
    }
    match get_memory_info("mallocinfo", &zone).ok().unwrap() {
        GetMemInfoRes::MallocInfo(x) => assert_eq!(
            x,
            "<malloc version=\"2.0\"><heap nr=\"1\"><allocated>20</allocated><free>30</free><total>0</total><locked>20</locked><chunks nr=\"20\"><used>4</used><free>0</free></chunks></heap></malloc>"
        ),
        GetMemInfoRes::Stats(_) => panic!("mallocinfo mode gives XML"),
    }
    match get_memory_info("mallocinfo", &AllocatorStats::Unavailable).ok().unwrap() {
        GetMemInfoRes::MallocInfo(x) => assert_eq!(x, ""),
        GetMemInfoRes::Stats(_) => panic!("mallocinfo mode gives XML"),
    }
    match get_memory_info("stats", &AllocatorStats::Unavailable).ok().unwrap() {
        GetMemInfoRes::Stats(s) => assert_eq!(s.locked.used + s.locked.total + s.locked.chunks_free, 0),
        GetMemInfoRes::MallocInfo(_) => panic!("stats mode gives numbers"),
    }
}

#[test]
fn control_error_message_quotes_the_mode() {
    let e = ControlError::UnknownMemInfoMode { mode: "bo\"gus".to_string() };
    assert_eq!(
        e.to_string(),
        "unknown getmemoryinfo mode \"bo\\\"gus\"; expected \"stats\" or \"mallocinfo\""
    );
    assert!(matches!(JsonRpcError::from(e), JsonRpcError::InvalidMemInfoMode));
}

#[test]
fn active_command_keeps_low_bits_of_duration() {
    let c = ActiveCommand::new("getblock".to_string(), (1u128 << 64) + 5);
    assert_eq!(c.duration, 5);
    assert_eq!(c.method, "getblock");
}

#[test]
fn addnode_commands() {
    assert!(matches!(addnode_command("add"), Ok(AddnodeCommand::Add)));
    assert!(matches!(addnode_command("remove"), Ok(AddnodeCommand::Remove)));
    assert!(matches!(addnode_command("onetry"), Ok(AddnodeCommand::OneTry)));
    match addnode_command("Add") {
        Err(e @ NetworkRpcError::UnknownAddnodeCommand { .. }) => {
            assert_eq!(e.to_string(), "unknown addnode command \"Add\"; expected \"add\", \"remove\" or \"onetry\"");
            assert!(matches!(JsonRpcError::from(e), JsonRpcError::InvalidAddnodeCommand));
        }
        _ => panic!("unknown commands are refused"),
    }
}

#[test]
fn disconnect_needs_exactly_one_target() {
    assert!(matches!(disconnect_target("1.2.3.4:8333".to_string(), None), Ok(DisconnectTarget::Address(a)) if a == "1.2.3.4:8333"));
    assert!(matches!(disconnect_target(String::new(), Some(3)), Ok(DisconnectTarget::NodeId(3))));
    for (addr, id) in [(String::new(), None), ("1.2.3.4:8333".to_string(), Some(3))] {
        match disconnect_target(addr, id) {
            Err(e @ NetworkRpcError::AmbiguousDisconnectTarget) => {
                assert_eq!(e.to_string(), "disconnectnode needs exactly one of an address or a node id");
                assert!(matches!(JsonRpcError::from(e), JsonRpcError::InvalidDisconnectNodeCommand));
            }
            _ => panic!("ambiguous targets are refused"),
        }
    }
}

#[test]
fn peer_lookup_by_id() {
    let peers = vec![(1u32, "a"), (2, "b"), (2, "c")];
    assert_eq!(peer_address(peers.clone(), 2).ok(), Some("b"));
    match peer_address(peers, 9) {
        Err(e @ NetworkRpcError::PeerNotFound { node_id: 9 }) => {
            assert_eq!(e.to_string(), "no connected peer with id 9");
            assert!(matches!(JsonRpcError::from(e), JsonRpcError::PeerNotFound));
        }
        _ => panic!("an unknown id is not found"),
    }
    assert!(check_disconnected(true).is_ok());
    assert!(matches!(check_disconnected(false), Err(JsonRpcError::PeerNotFound)));
}

#[test]
fn local_services_are_sixteen_hex_digits() {
    assert_eq!(local_services(0), "0000000000000000");
    assert_eq!(local_services(0x0c09), "0000000000000c09");
    assert_eq!(local_services(u64::MAX), "ffffffffffffffff");
}

#[test]
fn addr_parse_error_messages() {
    assert_eq!(AddrParseError::InvalidIpv6.to_string(), "Invalid ipv6");
    assert_eq!(AddrParseError::InvalidPort.to_string(), "Invalid port");
    assert_eq!(AddrParseError::Inconclusive.to_string(), "Inconclusive");
}
