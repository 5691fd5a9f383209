use polychat_ipc::envelope::{convert_str_to_struct, convert_struct_to_str};
use polychat_ipc::json::Json;
use polychat_ipc::schema::{
    AuthAccountInstruction, AuthAccountResponse, AuthMethod, AuthResult, CoreInstructionType,
    Field, FieldType, InitDataInstruction, KeepaliveInstruction, PluginInstructionType,
    ProtocolData, Version,
};

fn sample_init() -> InitDataInstruction {
    InitDataInstruction {
        api_version: Version { major: 0, minor: 0, patch: 0 },
        plugin_version: Version { major: 0, minor: 0, patch: 0 },
        protocol_data: ProtocolData {
            protocol_service_name: "test".to_string(),
            auth_methods: vec![AuthMethod {
                name: "test".to_string(),
                fields: vec![Field {
                    name: "test".to_string(),
                    field_type: FieldType::String,
                    value: None,
                    required: true,
                    sensitive: false,
                }],
            }],
        },
    }
}

#[test]
fn api_test_keepalive_instruction_serialization() {
    let original = KeepaliveInstruction { id: 0 };
    let serialized = convert_struct_to_str(&original).unwrap();

    println!("serialized keepalive = {}", serialized);

    let deserialized: KeepaliveInstruction = convert_str_to_struct(&serialized).unwrap();

    assert_eq!(original, deserialized);
}

#[test]
fn api_test_init_data_instruction_serialization() {
    let original = sample_init();
    let serialized = convert_struct_to_str(&original).unwrap();

    println!("serialized InitDataInstruction = {}", serialized);

    let deserialized: InitDataInstruction = convert_str_to_struct(&serialized).unwrap();

    assert_eq!(original, deserialized);
}

#[test]
fn api_test_auth_account_instruction_serialization() {
    let original = AuthAccountInstruction {
        used_authmethod: AuthMethod { name: "test".to_string(), fields: vec![] },
    };
    let serialized = convert_struct_to_str(&original).unwrap();

    println!("serialized AuthAccountInstruction = {}", serialized);

    let deserialized: AuthAccountInstruction = convert_str_to_struct(&serialized).unwrap();

    assert_eq!(original, deserialized);
}

#[test]
fn api_test_auth_account_response_serialization() {
    let original = AuthAccountResponse { result: AuthResult::Success, details: "test".to_string() };
    let serialized = convert_struct_to_str(&original).unwrap();

    println!("serialized AuthAccountResponse = {}", serialized);

    let deserialized: AuthAccountResponse = convert_str_to_struct(&serialized).unwrap();

    assert_eq!(original, deserialized);
}

#[test]
fn auth_test_auth_account_instruction_serialization() {
    let original = AuthAccountInstruction {
        used_authmethod: AuthMethod { name: "test".to_string(), fields: vec![] },
    };
    let serialized = convert_struct_to_str(&original).unwrap();

    println!("serialized AuthAccountInstruction = {}", serialized);

    let deserialized: AuthAccountInstruction = convert_str_to_struct(&serialized).unwrap();

    assert_eq!(original, deserialized);
}

#[test]
fn auth_test_auth_account_response_serialization() {
    let original = AuthAccountResponse { result: AuthResult::Success, details: "test".to_string() };
    let serialized = convert_struct_to_str(&original).unwrap();

    println!("serialized AuthAccountResponse = {}", serialized);

    let deserialized: AuthAccountResponse = convert_str_to_struct(&serialized).unwrap();

    assert_eq!(original, deserialized);
}

#[test]
fn keepalive_test_keepalive_instruction_serialization() {
    let original = KeepaliveInstruction { id: 0 };
    let serialized = convert_struct_to_str(&original).unwrap();

    println!("serialized keepalive = {}", serialized);

    let deserialized: KeepaliveInstruction = convert_str_to_struct(&serialized).unwrap();

    assert_eq!(original, deserialized);
}

#[test]
fn protocol_test_init_data_instruction_serialization() {
    let original = sample_init();
    let serialized = convert_struct_to_str(&original).unwrap();

    println!("serialized InitDataInstruction = {}", serialized);

    let deserialized: InitDataInstruction = convert_str_to_struct(&serialized).unwrap();

    assert_eq!(original, deserialized);
}

#[test]
fn keepalive_prints_its_field_by_name() {
    let text = convert_struct_to_str(&KeepaliveInstruction { id: 42 }).unwrap();
    assert_eq!(text, "{\"id\":42}");
    let largest = convert_struct_to_str(&KeepaliveInstruction { id: u64::MAX }).unwrap();
    assert_eq!(largest, "{\"id\":18446744073709551615}");
    let back: KeepaliveInstruction = convert_str_to_struct(&largest).unwrap();
    assert_eq!(back.id, u64::MAX);
}

#[test]
fn init_prints_fields_in_schema_order() {
    let text = convert_struct_to_str(&sample_init()).unwrap();
    assert_eq!(
        text,
        "{\"api_version\":{\"major\":0,\"minor\":0,\"patch\":0},\
         \"plugin_version\":{\"major\":0,\"minor\":0,\"patch\":0},\
         \"protocol_data\":{\"protocol_service_name\":\"test\",\"auth_methods\":[\
         {\"name\":\"test\",\"fields\":[{\"name\":\"test\",\"field_type\":\"String\",\
         \"value\":null,\"required\":true,\"sensitive\":false}]}]}}"
    );
}

#[test]
fn auth_response_prints_bare_variant_name() {
    let text = convert_struct_to_str(&AuthAccountResponse {
        result: AuthResult::FailConnectionError,
        details: "no route".to_string(),
    })
    .unwrap();
    assert_eq!(text, "{\"result\":\"FailConnectionError\",\"details\":\"no route\"}");
}

#[test]
fn every_auth_result_and_field_type_round_trips() {
    for result in [
        AuthResult::Success,
        AuthResult::FailRejected,
        AuthResult::FailConnectionError,
        AuthResult::Connecting,
    ] {
        let original = AuthAccountResponse { result, details: String::new() };
        let text = convert_struct_to_str(&original).unwrap();
        let back: AuthAccountResponse = convert_str_to_struct(&text).unwrap();
        assert_eq!(original, back);
    }
    for field_type in [FieldType::Integer, FieldType::String, FieldType::Url] {
        let original = Field {
            name: "n".to_string(),
            field_type,
            value: Some("v".to_string()),
            required: false,
            sensitive: true,
        };
        let text = convert_struct_to_str(&original).unwrap();
        let back: Field = convert_str_to_struct(&text).unwrap();
        assert_eq!(original, back);
    }
}

#[test]
fn version_takes_the_whole_i32_range_and_no_more() {
    let edge = Version { major: i32::MIN, minor: i32::MAX, patch: -1 };
    let text = convert_struct_to_str(&edge).unwrap();
    assert_eq!(text, "{\"major\":-2147483648,\"minor\":2147483647,\"patch\":-1}");
    let back: Version = convert_str_to_struct(&text).unwrap();
    assert_eq!(edge, back);

    let too_large = "{\"major\":2147483648,\"minor\":0,\"patch\":0}".to_string();
    assert!(convert_str_to_struct::<Version>(&too_large).is_err());
    let too_small = "{\"major\":-2147483649,\"minor\":0,\"patch\":0}".to_string();
    assert!(convert_str_to_struct::<Version>(&too_small).is_err());
    let fraction = "{\"major\":1.5,\"minor\":0,\"patch\":0}".to_string();
    assert!(convert_str_to_struct::<Version>(&fraction).is_err());
}

#[test]
fn keepalive_rejects_negative_missing_and_mistyped_ids() {
    for text in ["{\"id\":-1}", "{}", "{\"id\":\"7\"}", "{\"id\":null}", "42", "[]", "{\"id\":1.0}"] {
        let err = convert_str_to_struct::<KeepaliveInstruction>(&text.to_string()).unwrap_err();
        assert_eq!(err.text, text);
    }
}

#[test]
fn reading_ignores_unknown_members_and_layout() {
    let text = " { \"extra\" : [1, 2] ,\n \"id\" : 7 } ".to_string();
    let back: KeepaliveInstruction = convert_str_to_struct(&text).unwrap();
    assert_eq!(back, KeepaliveInstruction { id: 7 });
}

#[test]
fn field_value_may_be_absent_null_or_text() {
    let absent = "{\"name\":\"a\",\"field_type\":\"Url\",\"required\":true,\"sensitive\":false}";
    let field: Field = convert_str_to_struct(&absent.to_string()).unwrap();
    assert_eq!(field.value, None);
    assert_eq!(field.field_type, FieldType::Url);

    let null = "{\"name\":\"a\",\"field_type\":\"Integer\",\"value\":null,\"required\":true,\"sensitive\":false}";
    let field: Field = convert_str_to_struct(&null.to_string()).unwrap();
    assert_eq!(field.value, None);

    let text = "{\"name\":\"a\",\"field_type\":\"Integer\",\"value\":\"x\",\"required\":true,\"sensitive\":false}";
    let field: Field = convert_str_to_struct(&text.to_string()).unwrap();
    assert_eq!(field.value, Some("x".to_string()));

    let number = "{\"name\":\"a\",\"field_type\":\"Integer\",\"value\":3,\"required\":true,\"sensitive\":false}";
    assert!(convert_str_to_struct::<Field>(&number.to_string()).is_err());
    let unknown_type = "{\"name\":\"a\",\"field_type\":\"Float\",\"required\":true,\"sensitive\":false}";
    assert!(convert_str_to_struct::<Field>(&unknown_type.to_string()).is_err());
}

#[test]
fn one_bad_item_fails_the_whole_list() {
    let text = "{\"name\":\"m\",\"fields\":[{\"name\":\"a\",\"field_type\":\"Url\",\"required\":true,\"sensitive\":false},{\"name\":\"b\"}]}";
    assert!(convert_str_to_struct::<AuthMethod>(&text.to_string()).is_err());
    let not_a_list = "{\"name\":\"m\",\"fields\":{}}";
    assert!(convert_str_to_struct::<AuthMethod>(&not_a_list.to_string()).is_err());
}

#[test]
fn text_that_is_not_json_is_a_decode_error_that_keeps_the_text() {
    let text = "{\"id\":".to_string();
    let err = convert_str_to_struct::<KeepaliveInstruction>(&text).unwrap_err();
    assert_eq!(err.text, text);
}

#[test]
fn strings_are_escaped_on_the_way_out_and_restored_on_the_way_in() {
    let original = AuthAccountResponse {
        result: AuthResult::Connecting,
        details: "line\nbreak \"quoted\" \\ \u{e9}".to_string(),
    };
    let text = convert_struct_to_str(&original).unwrap();
    assert_eq!(
        text,
        "{\"result\":\"Connecting\",\"details\":\"line\\nbreak \\\"quoted\\\" \\\\ \u{e9}\"}"
    );
    let back: AuthAccountResponse = convert_str_to_struct(&text).unwrap();
    assert_eq!(original, back);
}

#[test]
fn kind_names_on_the_wire_and_on_display() {
    assert_eq!(CoreInstructionType::Init.name(), "Init");
    assert_eq!(CoreInstructionType::KeepaliveResponse.name(), "KeepaliveResponse");
    assert_eq!(CoreInstructionType::AuthAccountResponse.name(), "AuthAccountResponse");
    assert_eq!(CoreInstructionType::AuthAccountResponse.to_string(), "AuthAccountResponse");
    assert_eq!(PluginInstructionType::Keepalive.name(), "Keepalive");
    assert_eq!(PluginInstructionType::AuthAccount.name(), "AuthAccount");
    assert_eq!(PluginInstructionType::Keepalive.to_string(), "KeepAlive");
    assert_eq!(PluginInstructionType::AuthAccount.to_string(), "AuthAccount");
}

#[test]
fn kind_names_read_back_to_their_kinds() {
    for kind in [
        CoreInstructionType::Init,
        CoreInstructionType::KeepaliveResponse,
        CoreInstructionType::AuthAccountResponse,
    ] {
        assert_eq!(CoreInstructionType::from_name(&kind.name().to_string()), Some(kind));
    }
    for kind in [PluginInstructionType::Keepalive, PluginInstructionType::AuthAccount] {
        assert_eq!(PluginInstructionType::from_name(&kind.name().to_string()), Some(kind));
    }
    assert_eq!(CoreInstructionType::from_name(&"Silliness".to_string()), None);
    assert_eq!(CoreInstructionType::from_name(&"init".to_string()), None);
    assert_eq!(CoreInstructionType::from_name(&"Keepalive".to_string()), None);
    assert_eq!(PluginInstructionType::from_name(&"KeepAlive".to_string()), None);
    assert_eq!(PluginInstructionType::from_name(&"Init".to_string()), None);
}

#[test]
fn member_lookup_takes_the_first_of_two() {
    let doc = Json::Object(vec![
        ("a".to_string(), Json::Unsigned(1)),
        ("b".to_string(), Json::Bool(true)),
        ("a".to_string(), Json::Unsigned(2)),
    ]);
    assert!(matches!(doc.member("a"), Some(Json::Unsigned(1))));
    assert!(matches!(doc.member("b"), Some(Json::Bool(true))));
    assert!(doc.member("c").is_none());
    assert!(Json::Array(vec![]).member("a").is_none());
}
