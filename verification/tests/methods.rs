use paperplane::methods::{
    CheckAuthenticationCode, Close, GetAuthorizationState, GetMe, Method, SetTdlibParameters,
};
use paperplane::types::{AuthorizationState, Okay, TdlibParameters, User};

fn response_of<M: Method>(_: &M) -> std::marker::PhantomData<M::Response> {
    std::marker::PhantomData
}

#[test]
fn each_request_has_its_discriminator() {
    assert_eq!(GetAuthorizationState::TYPE, "getAuthorizationState");
    assert_eq!(SetTdlibParameters::TYPE, "setTdlibParameters");
    assert_eq!(CheckAuthenticationCode::TYPE, "checkAuthenticationCode");
    assert_eq!(Close::TYPE, "close");
    assert_eq!(GetMe::TYPE, "getMe");
}

#[test]
fn each_request_has_its_response() {
    let _: std::marker::PhantomData<AuthorizationState> = response_of(&GetAuthorizationState {});
    let _: std::marker::PhantomData<Okay> = response_of(&Close {});
    let _: std::marker::PhantomData<User> = response_of(&GetMe {});
}

#[test]
fn tag_pairs_the_request_with_its_discriminator() {
    let tagged = CheckAuthenticationCode { code: "12345".to_string() }.tag();
    assert_eq!(tagged.type_, "checkAuthenticationCode");
    assert_eq!(tagged.payload.code, "12345");
}

#[test]
fn tag_keeps_every_member_of_the_request() {
    let parameters = TdlibParameters {
        use_test_dc: true,
        database_directory: "database".to_string(),
        files_directory: "files".to_string(),
        use_file_database: true,
        use_chat_info_database: true,
        use_message_database: true,
        use_secret_chats: false,
        api_id: 17,
        api_hash: "hash".to_string(),
        system_language_code: "en".to_string(),
        device_model: "model".to_string(),
        system_version: "15".to_string(),
        application_version: "0.1".to_string(),
        enable_storage_optimizer: false,
        ignore_file_names: true,
    };
    let tagged = SetTdlibParameters { parameters }.tag();
    assert_eq!(tagged.type_, "setTdlibParameters");
    assert_eq!(tagged.payload.parameters.api_id, 17);
    assert_eq!(tagged.payload.parameters.database_directory, "database");
    assert!(tagged.payload.parameters.ignore_file_names);
    let copy = tagged.clone();
    assert_eq!(copy.type_, "setTdlibParameters");
    assert_eq!(copy.payload.parameters.api_hash, "hash");
}
