//! Requests: one type for each, with its discriminator and the type of its
//! reply.

use crate::types::{
    AccountTtl, Animations, AuthenticationCodeInfo, AuthorizationState, AutoDownloadSettings,
    AutoDownloadSettingsPresets, Background, BackgroundType, Backgrounds, BankCardInfo,
    BasicGroup, BasicGroupFullInfo, BotCommand, CallId, CallProblem, CallProtocol,
    CallbackQueryAnswer, CallbackQueryPayload, CanTransferOwnershipResult, ChatAction,
    ChatAdministrators, ChatEventLogFilters, ChatInviteLink, ChatInviteLinkInfo, ChatList,
    ChatMember, ChatMemberStatus, ChatMembers, ChatMembersFilter, ChatNotificationSettings,
    ChatPermissions, ChatReportReason, Chats, CheckChatUsernameResult, ConnectedWebsites,
    Contact, Count, CustomRequestResult, DatabaseStatistics, DeepLinkInfo, DeviceToken,
    EmailAddressAuthenticationCodeInfo, Emojis, Error, File, FilePart, FileType, FormattedText,
    GameHighScores, Hashtags, HttpUrl, ImportedContacts, InputBackground, InputCredentials,
    InputFile, InputPassportElement, InputPassportElementError, LanguagePackInfo,
    LanguagePackString, LanguagePackStringValue, LanguagePackStrings, LocalizationTargetInfo,
    LogStream, LogTags, LogVerbosityLevel, LoginUrlInfo, MessageSchedulingState, NetworkType,
    NotificationSettingsScope, Okay, OptionValue, OrderInfo, PassportAuthorizationForm,
    PassportElement, PassportElementType, PassportElements, PassportElementsWithErrors,
    PasswordState, PaymentForm, PaymentReceipt, PaymentResult,
    PhoneNumberAuthenticationSettings, Proxies, Proxy, ProxyType, PublicChatType,
    PublicMessageLink, PushReceiverId, RecoveryEmailAddress, ReplyMarkup,
    ScopeNotificationSettings, SearchMessagesFilter, SecretChat, SendMessageOptions, Session,
    Sessions, ShippingOption, StatisticsGraph, StorageStatistics, StorageStatisticsFast,
    Supergroup, SupergroupMembersFilter, TMeUrls, TdlibParameters, TemporaryPasswordState,
    TestBytes, TestInt, TestString, TestVectorInt, TestVectorIntObject, TestVectorString,
    TestVectorStringObject, Text, TextEntities, TextParseMode, TopChatCategory, User,
    UserFullInfo, UserPrivacySetting, UserPrivacySettingRules, UserProfilePhotos, Users,
    ValidatedOrderInfo,
};
use vstd::prelude::*;

verus! {

/// A request of the remote interface.
pub trait Method: Sized {
    /// The discriminator under which the request travels.
    const TYPE: &'static str;

    /// What the far side answers.
    type Response;

    /// The request together with its discriminator.
    fn tag(self) -> (tagged: MethodType<Self>)
        ensures
            tagged.type_@ == Self::TYPE@,
            tagged.payload == self,
    {
        MethodType { type_: Self::TYPE, payload: self }
    }
}

/// A request and the discriminator it is sent under.
#[derive(Debug, Clone)]
pub struct MethodType<T: Method> {
    /// The discriminator, as the wire's `@type` member holds it.
    pub type_: &'static str,
    /// The request itself, whose members travel beside the discriminator.
    pub payload: T,
}

/// Returns the current authorization state; this is an offline request. For informational purposes
/// only. Use updateAuthorizationState instead to maintain the current authorization state
#[derive(Debug, Clone)]
pub struct GetAuthorizationState {}

impl Method for GetAuthorizationState {
    const TYPE: &'static str = "getAuthorizationState";

    type Response = AuthorizationState;
}

/// Sets the parameters for TDLib initialization. Works only when the current authorization state is
/// authorizationStateWaitTdlibParameters
#[derive(Debug, Clone)]
pub struct SetTdlibParameters {
    /// Parameters
    pub parameters: TdlibParameters,
}

impl Method for SetTdlibParameters {
    const TYPE: &'static str = "setTdlibParameters";

    type Response = Okay;
}

/// Checks the database encryption key for correctness. Works only when the current authorization
/// state is authorizationStateWaitEncryptionKey
#[derive(Debug, Clone)]
pub struct CheckDatabaseEncryptionKey {
    /// Encryption key to check or set up
    pub encryption_key: String,
}

impl Method for CheckDatabaseEncryptionKey {
    const TYPE: &'static str = "checkDatabaseEncryptionKey";

    type Response = Okay;
}

/// Sets the phone number of the user and sends an authentication code to the user. Works only when
/// the current authorization state is authorizationStateWaitPhoneNumber,
/// or if there is no pending authentication query and the current authorization state is
/// authorizationStateWaitCode, authorizationStateWaitRegistration, or
/// authorizationStateWaitPassword
#[derive(Debug, Clone)]
pub struct SetAuthenticationPhoneNumber {
    /// The phone number of the user, in international format
    pub phone_number: String,
    /// Settings for the authentication of the user's phone number
    pub settings: PhoneNumberAuthenticationSettings,
}

impl Method for SetAuthenticationPhoneNumber {
    const TYPE: &'static str = "setAuthenticationPhoneNumber";

    type Response = Okay;
}

/// Re-sends an authentication code to the user. Works only when the current authorization state is
/// authorizationStateWaitCode and the next_code_type of the result is not null
#[derive(Debug, Clone)]
pub struct ResendAuthenticationCode {}

impl Method for ResendAuthenticationCode {
    const TYPE: &'static str = "resendAuthenticationCode";

    type Response = Okay;
}

/// Checks the authentication code. Works only when the current authorization state is
/// authorizationStateWaitCode
#[derive(Debug, Clone)]
pub struct CheckAuthenticationCode {
    /// The verification code received via SMS, Telegram message, phone call, or flash call
    pub code: String,
}

impl Method for CheckAuthenticationCode {
    const TYPE: &'static str = "checkAuthenticationCode";

    type Response = Okay;
}

/// Requests QR code authentication by scanning a QR code on another logged in device. Works only
/// when the current authorization state is authorizationStateWaitPhoneNumber
#[derive(Debug, Clone)]
pub struct RequestQrCodeAuthentication {
    /// List of user identifiers of other users currently using the client
    pub other_user_ids: Vec<i32>,
}

impl Method for RequestQrCodeAuthentication {
    const TYPE: &'static str = "requestQrCodeAuthentication";

    type Response = Okay;
}

/// Finishes user registration. Works only when the current authorization state is
/// authorizationStateWaitRegistration
#[derive(Debug, Clone)]
pub struct RegisterUser {
    /// The first name of the user; 1-64 characters
    pub first_name: String,
    /// The last name of the user; 0-64 characters
    pub last_name: String,
}

impl Method for RegisterUser {
    const TYPE: &'static str = "registerUser";

    type Response = Okay;
}

/// Checks the authentication password for correctness. Works only when the current authorization
/// state is authorizationStateWaitPassword
#[derive(Debug, Clone)]
pub struct CheckAuthenticationPassword {
    /// The password to check
    pub password: String,
}

impl Method for CheckAuthenticationPassword {
    const TYPE: &'static str = "checkAuthenticationPassword";

    type Response = Okay;
}

/// Requests to send a password recovery code to an email address that was previously set up. Works
/// only when the current authorization state is authorizationStateWaitPassword
#[derive(Debug, Clone)]
pub struct RequestAuthenticationPasswordRecovery {}

impl Method for RequestAuthenticationPasswordRecovery {
    const TYPE: &'static str = "requestAuthenticationPasswordRecovery";

    type Response = Okay;
}

/// Recovers the password with a password recovery code sent to an email address that was previously
/// set up. Works only when the current authorization state is authorizationStateWaitPassword
#[derive(Debug, Clone)]
pub struct RecoverAuthenticationPassword {
    /// Recovery code to check
    pub recovery_code: String,
}

impl Method for RecoverAuthenticationPassword {
    const TYPE: &'static str = "recoverAuthenticationPassword";

    type Response = Okay;
}

/// Checks the authentication token of a bot; to log in as a bot. Works only when the current
/// authorization state is authorizationStateWaitPhoneNumber. Can be used instead of
/// setAuthenticationPhoneNumber and checkAuthenticationCode to log in
#[derive(Debug, Clone)]
pub struct CheckAuthenticationBotToken {
    /// The bot token
    pub token: String,
}

impl Method for CheckAuthenticationBotToken {
    const TYPE: &'static str = "checkAuthenticationBotToken";

    type Response = Okay;
}

/// Closes the TDLib instance after a proper logout. Requires an available network connection. All
/// local data will be destroyed. After the logout completes, updateAuthorizationState with
/// authorizationStateClosed will be sent
#[derive(Debug, Clone)]
pub struct LogOut {}

impl Method for LogOut {
    const TYPE: &'static str = "logOut";

    type Response = Okay;
}

/// Closes the TDLib instance. All databases will be flushed to disk and properly closed. After the
/// close completes, updateAuthorizationState with authorizationStateClosed will be sent
#[derive(Debug, Clone)]
pub struct Close {}

impl Method for Close {
    const TYPE: &'static str = "close";

    type Response = Okay;
}

/// Closes the TDLib instance, destroying all local data without a proper logout. The current user
/// session will remain in the list of all active sessions. All local data will be destroyed. After
/// the destruction completes updateAuthorizationState with authorizationStateClosed will be sent
#[derive(Debug, Clone)]
pub struct Destroy {}

impl Method for Destroy {
    const TYPE: &'static str = "destroy";

    type Response = Okay;
}

/// Confirms QR code authentication on another device. Returns created session on success
#[derive(Debug, Clone)]
pub struct ConfirmQrCodeAuthentication {
    /// A link from a QR code. The link must be scanned by the in-app camera
    pub link: String,
}

impl Method for ConfirmQrCodeAuthentication {
    const TYPE: &'static str = "confirmQrCodeAuthentication";

    type Response = Session;
}

/// Returns all updates needed to restore current TDLib state, i.e. all actual
/// UpdateAuthorizationState/UpdateUser/UpdateNewChat and others. This is especially useful if TDLib
/// is run in a separate process. This is an offline method. Can be called before authorization
#[derive(Debug, Clone)]
pub struct GetCurrentState {}

/// Changes the database encryption key. Usually the encryption key is never changed and is stored
/// in some OS keychain
#[derive(Debug, Clone)]
pub struct SetDatabaseEncryptionKey {
    /// New encryption key
    pub new_encryption_key: String,
}

impl Method for SetDatabaseEncryptionKey {
    const TYPE: &'static str = "setDatabaseEncryptionKey";

    type Response = Okay;
}

/// Returns the current state of 2-step verification
#[derive(Debug, Clone)]
pub struct GetPasswordState {}

impl Method for GetPasswordState {
    const TYPE: &'static str = "getPasswordState";

    type Response = PasswordState;
}

/// Changes the password for the user. If a new recovery email address is specified, then the change
/// will not be applied until the new recovery email address is confirmed
#[derive(Debug, Clone)]
pub struct SetPassword {
    /// Previous password of the user
    pub old_password: String,
    /// New password of the user; may be empty to remove the password
    pub new_password: String,
    /// New password hint; may be empty
    pub new_hint: String,
    /// Pass true if the recovery email address should be changed
    pub set_recovery_email_address: bool,
    /// New recovery email address; may be empty
    pub new_recovery_email_address: String,
}

impl Method for SetPassword {
    const TYPE: &'static str = "setPassword";

    type Response = PasswordState;
}

/// Returns a 2-step verification recovery email address that was previously set up. This method can
/// be used to verify a password provided by the user
#[derive(Debug, Clone)]
pub struct GetRecoveryEmailAddress {
    /// The password for the current user
    pub password: String,
}

impl Method for GetRecoveryEmailAddress {
    const TYPE: &'static str = "getRecoveryEmailAddress";

    type Response = RecoveryEmailAddress;
}

/// Changes the 2-step verification recovery email address of the user. If a new recovery email
/// address is specified, then the change will not be applied until the new recovery email address
/// is confirmed.
/// If new_recovery_email_address is the same as the email address that is currently set up, this
/// call succeeds immediately and aborts all other requests waiting for an email confirmation
#[derive(Debug, Clone)]
pub struct SetRecoveryEmailAddress {
    /// Password of the current user
    pub password: String,
    /// New recovery email address
    pub new_recovery_email_address: String,
}

impl Method for SetRecoveryEmailAddress {
    const TYPE: &'static str = "setRecoveryEmailAddress";

    type Response = PasswordState;
}

/// Checks the 2-step verification recovery email address verification code
#[derive(Debug, Clone)]
pub struct CheckRecoveryEmailAddressCode {
    /// Verification code
    pub code: String,
}

impl Method for CheckRecoveryEmailAddressCode {
    const TYPE: &'static str = "checkRecoveryEmailAddressCode";

    type Response = PasswordState;
}

/// Resends the 2-step verification recovery email address verification code
#[derive(Debug, Clone)]
pub struct ResendRecoveryEmailAddressCode {}

impl Method for ResendRecoveryEmailAddressCode {
    const TYPE: &'static str = "resendRecoveryEmailAddressCode";

    type Response = PasswordState;
}

/// Requests to send a password recovery code to an email address that was previously set up
#[derive(Debug, Clone)]
pub struct RequestPasswordRecovery {}

impl Method for RequestPasswordRecovery {
    const TYPE: &'static str = "requestPasswordRecovery";

    type Response = EmailAddressAuthenticationCodeInfo;
}

/// Recovers the password using a recovery code sent to an email address that was previously set up
#[derive(Debug, Clone)]
pub struct RecoverPassword {
    /// Recovery code to check
    pub recovery_code: String,
}

impl Method for RecoverPassword {
    const TYPE: &'static str = "recoverPassword";

    type Response = PasswordState;
}

/// Creates a new temporary password for processing payments
#[derive(Debug, Clone)]
pub struct CreateTemporaryPassword {
    /// Persistent user password
    pub password: String,
    /// Time during which the temporary password will be valid, in seconds; should be between 60 and
    /// 86400
    pub valid_for: i32,
}

impl Method for CreateTemporaryPassword {
    const TYPE: &'static str = "createTemporaryPassword";

    type Response = TemporaryPasswordState;
}

/// Returns information about the current temporary password
#[derive(Debug, Clone)]
pub struct GetTemporaryPasswordState {}

impl Method for GetTemporaryPasswordState {
    const TYPE: &'static str = "getTemporaryPasswordState";

    type Response = TemporaryPasswordState;
}

/// Returns the current user
#[derive(Debug, Clone)]
pub struct GetMe {}

impl Method for GetMe {
    const TYPE: &'static str = "getMe";

    type Response = User;
}

/// Returns information about a user by their identifier. This is an offline request if the current
/// user is not a bot
#[derive(Debug, Clone)]
pub struct GetUser {
    /// User identifier
    pub user_id: i32,
}

impl Method for GetUser {
    const TYPE: &'static str = "getUser";

    type Response = User;
}

/// Returns full information about a user by their identifier
#[derive(Debug, Clone)]
pub struct GetUserFullInfo {
    /// User identifier
    pub user_id: i32,
}

impl Method for GetUserFullInfo {
    const TYPE: &'static str = "getUserFullInfo";

    type Response = UserFullInfo;
}

/// Returns information about a basic group by its identifier. This is an offline request if the
/// current user is not a bot
#[derive(Debug, Clone)]
pub struct GetBasicGroup {
    /// Basic group identifier
    pub basic_group_id: i32,
}

impl Method for GetBasicGroup {
    const TYPE: &'static str = "getBasicGroup";

    type Response = BasicGroup;
}

/// Returns full information about a basic group by its identifier
#[derive(Debug, Clone)]
pub struct GetBasicGroupFullInfo {
    /// Basic group identifier
    pub basic_group_id: i32,
}

impl Method for GetBasicGroupFullInfo {
    const TYPE: &'static str = "getBasicGroupFullInfo";

    type Response = BasicGroupFullInfo;
}

/// Returns information about a supergroup or a channel by its identifier. This is an offline
/// request if the current user is not a bot
#[derive(Debug, Clone)]
pub struct GetSupergroup {
    /// Supergroup or channel identifier
    pub supergroup_id: i32,
}

impl Method for GetSupergroup {
    const TYPE: &'static str = "getSupergroup";

    type Response = Supergroup;
}

/// Returns full information about a supergroup or a channel by its identifier, cached for up to 1
/// minute
#[derive(Debug, Clone)]
pub struct GetSupergroupFullInfo {
    /// Supergroup or channel identifier
    pub supergroup_id: i32,
}

/// Returns information about a secret chat by its identifier. This is an offline request
#[derive(Debug, Clone)]
pub struct GetSecretChat {
    /// Secret chat identifier
    pub secret_chat_id: i32,
}

impl Method for GetSecretChat {
    const TYPE: &'static str = "getSecretChat";

    type Response = SecretChat;
}

/// Returns information about a chat by its identifier, this is an offline request if the current
/// user is not a bot
#[derive(Debug, Clone)]
pub struct GetChat {
    /// Chat identifier
    pub chat_id: i64,
}

/// Returns information about a message
#[derive(Debug, Clone)]
pub struct GetMessage {
    /// Identifier of the chat the message belongs to
    pub chat_id: i64,
    /// Identifier of the message to get
    pub message_id: i64,
}

/// Returns information about a message, if it is available locally without sending network request.
/// This is an offline request
#[derive(Debug, Clone)]
pub struct GetMessageLocally {
    /// Identifier of the chat the message belongs to
    pub chat_id: i64,
    /// Identifier of the message to get
    pub message_id: i64,
}

/// Returns information about a message that is replied by given message
#[derive(Debug, Clone)]
pub struct GetRepliedMessage {
    /// Identifier of the chat the message belongs to
    pub chat_id: i64,
    /// Identifier of the message reply to which get
    pub message_id: i64,
}

/// Returns information about a pinned chat message
#[derive(Debug, Clone)]
pub struct GetChatPinnedMessage {
    /// Identifier of the chat the message belongs to
    pub chat_id: i64,
}

/// Returns information about messages. If a message is not found, returns null on the corresponding
/// position of the result
#[derive(Debug, Clone)]
pub struct GetMessages {
    /// Identifier of the chat the messages belong to
    pub chat_id: i64,
    /// Identifiers of the messages to get
    pub message_ids: Vec<i64>,
}

/// Returns information about a file; this is an offline request
#[derive(Debug, Clone)]
pub struct GetFile {
    /// Identifier of the file to get
    pub file_id: i32,
}

impl Method for GetFile {
    const TYPE: &'static str = "getFile";

    type Response = File;
}

/// Returns information about a file by its remote ID; this is an offline request. Can be used to
/// register a URL as a file for further uploading, or sending as a message. Even the request
/// succeeds, the file can be used only if it is still accessible to the user.
/// For example, if the file is from a message, then the message must be not deleted and accessible
/// to the user. If the file database is disabled, then the corresponding object with the file must
/// be preloaded by the client
#[derive(Debug, Clone)]
pub struct GetRemoteFile {
    /// Remote identifier of the file to get
    pub remote_file_id: String,
    /// File type, if known
    pub file_type: FileType,
}

impl Method for GetRemoteFile {
    const TYPE: &'static str = "getRemoteFile";

    type Response = File;
}

/// Returns an ordered list of chats in a chat list. Chats are sorted by the pair (order, chat_id)
/// in decreasing order. (For example, to get a list of chats from the beginning, the offset_order
/// should be equal to a biggest signed 64-bit number 9223372036854775807 == 2^63 - 1).
/// For optimal performance the number of returned chats is chosen by the library
#[derive(Debug, Clone)]
pub struct GetChats {
    /// The chat list in which to return chats
    pub chat_list: ChatList,
    /// Chat order to return chats from
    pub offset_order: i64,
    /// Chat identifier to return chats from
    pub offset_chat_id: i64,
    /// The maximum number of chats to be returned. It is possible that fewer chats than the limit
    /// are returned even if the end of the list is not reached
    pub limit: i32,
}

impl Method for GetChats {
    const TYPE: &'static str = "getChats";

    type Response = Chats;
}

/// Searches a public chat by its username. Currently only private chats, supergroups and channels
/// can be public. Returns the chat if found; otherwise an error is returned
#[derive(Debug, Clone)]
pub struct SearchPublicChat {
    /// Username to be resolved
    pub username: String,
}

/// Searches public chats by looking for specified query in their username and title. Currently only
/// private chats, supergroups and channels can be public. Returns a meaningful number of results.
/// Returns nothing if the length of the searched username prefix is less than 5. Excludes private
/// chats with contacts and chats from the chat list from the results
#[derive(Debug, Clone)]
pub struct SearchPublicChats {
    /// Query to search for
    pub query: String,
}

impl Method for SearchPublicChats {
    const TYPE: &'static str = "searchPublicChats";

    type Response = Chats;
}

/// Searches for the specified query in the title and username of already known chats, this is an
/// offline request. Returns chats in the order seen in the chat list
#[derive(Debug, Clone)]
pub struct SearchChats {
    /// Query to search for. If the query is empty, returns up to 20 recently found chats
    pub query: String,
    /// The maximum number of chats to be returned
    pub limit: i32,
}

impl Method for SearchChats {
    const TYPE: &'static str = "searchChats";

    type Response = Chats;
}

/// Searches for the specified query in the title and username of already known chats via request to
/// the server. Returns chats in the order seen in the chat list
#[derive(Debug, Clone)]
pub struct SearchChatsOnServer {
    /// Query to search for
    pub query: String,
    /// The maximum number of chats to be returned
    pub limit: i32,
}

impl Method for SearchChatsOnServer {
    const TYPE: &'static str = "searchChatsOnServer";

    type Response = Chats;
}

/// Returns a list of frequently used chats. Supported only if the chat info database is enabled
#[derive(Debug, Clone)]
pub struct GetTopChats {
    /// Category of chats to be returned
    pub category: TopChatCategory,
    /// The maximum number of chats to be returned; up to 30
    pub limit: i32,
}

impl Method for GetTopChats {
    const TYPE: &'static str = "getTopChats";

    type Response = Chats;
}

/// Removes a chat from the list of frequently used chats. Supported only if the chat info database
/// is enabled
#[derive(Debug, Clone)]
pub struct RemoveTopChat {
    /// Category of frequently used chats
    pub category: TopChatCategory,
    /// Chat identifier
    pub chat_id: i64,
}

impl Method for RemoveTopChat {
    const TYPE: &'static str = "removeTopChat";

    type Response = Okay;
}

/// Adds a chat to the list of recently found chats. The chat is added to the beginning of the list.
/// If the chat is already in the list, it will be removed from the list first
#[derive(Debug, Clone)]
pub struct AddRecentlyFoundChat {
    /// Identifier of the chat to add
    pub chat_id: i64,
}

impl Method for AddRecentlyFoundChat {
    const TYPE: &'static str = "addRecentlyFoundChat";

    type Response = Okay;
}

/// Removes a chat from the list of recently found chats
#[derive(Debug, Clone)]
pub struct RemoveRecentlyFoundChat {
    /// Identifier of the chat to be removed
    pub chat_id: i64,
}

impl Method for RemoveRecentlyFoundChat {
    const TYPE: &'static str = "removeRecentlyFoundChat";

    type Response = Okay;
}

/// Clears the list of recently found chats
#[derive(Debug, Clone)]
pub struct ClearRecentlyFoundChats {}

impl Method for ClearRecentlyFoundChats {
    const TYPE: &'static str = "clearRecentlyFoundChats";

    type Response = Okay;
}

/// Checks whether a username can be set for a chat
#[derive(Debug, Clone)]
pub struct CheckChatUsername {
    /// Chat identifier; should be identifier of a supergroup chat, or a channel chat, or a private
    /// chat with self, or zero if chat is being created
    pub chat_id: i64,
    /// Username to be checked
    pub username: String,
}

impl Method for CheckChatUsername {
    const TYPE: &'static str = "checkChatUsername";

    type Response = CheckChatUsernameResult;
}

/// Returns a list of public chats of the specified type, owned by the user
#[derive(Debug, Clone)]
pub struct GetCreatedPublicChats {
    /// Type of the public chats to return
    pub type_: PublicChatType,
}

impl Method for GetCreatedPublicChats {
    const TYPE: &'static str = "getCreatedPublicChats";

    type Response = Chats;
}

/// Checks whether the maximum number of owned public chats has been reached. Returns corresponding
/// error if the limit was reached
#[derive(Debug, Clone)]
pub struct CheckCreatedPublicChatsLimit {
    /// Type of the public chats, for which to check the limit
    pub type_: PublicChatType,
}

impl Method for CheckCreatedPublicChatsLimit {
    const TYPE: &'static str = "checkCreatedPublicChatsLimit";

    type Response = Okay;
}

/// Returns a list of basic group and supergroup chats, which can be used as a discussion group for
/// a channel. Basic group chats need to be first upgraded to supergroups before they can be set as
/// a discussion group
#[derive(Debug, Clone)]
pub struct GetSuitableDiscussionChats {}

impl Method for GetSuitableDiscussionChats {
    const TYPE: &'static str = "getSuitableDiscussionChats";

    type Response = Chats;
}

/// Returns a list of recently inactive supergroups and channels. Can be used when user reaches
/// limit on the number of joined supergroups and channels and receives CHANNELS_TOO_MUCH error
#[derive(Debug, Clone)]
pub struct GetInactiveSupergroupChats {}

impl Method for GetInactiveSupergroupChats {
    const TYPE: &'static str = "getInactiveSupergroupChats";

    type Response = Chats;
}

/// Returns a list of common group chats with a given user. Chats are sorted by their type and
/// creation date
#[derive(Debug, Clone)]
pub struct GetGroupsInCommon {
    /// User identifier
    pub user_id: i32,
    /// Chat identifier starting from which to return chats; use 0 for the first request
    pub offset_chat_id: i64,
    /// The maximum number of chats to be returned; up to 100
    pub limit: i32,
}

impl Method for GetGroupsInCommon {
    const TYPE: &'static str = "getGroupsInCommon";

    type Response = Chats;
}

/// Returns messages in a chat. The messages are returned in a reverse chronological order (i.e., in
/// order of decreasing message_id).
/// For optimal performance the number of returned messages is chosen by the library. This is an
/// offline request if only_local is true
#[derive(Debug, Clone)]
pub struct GetChatHistory {
    /// Chat identifier
    pub chat_id: i64,
    /// Identifier of the message starting from which history must be fetched; use 0 to get results
    /// from the last message
    pub from_message_id: i64,
    /// Specify 0 to get results from exactly the from_message_id or a negative offset up to 99 to
    /// get additionally some newer messages
    pub offset: i32,
    /// The maximum number of messages to be returned; must be positive and can't be greater than
    /// 100. If the offset is negative, the limit must be greater or equal to -offset. Fewer
    /// messages may be returned than specified by the limit, even if the end of the message history
    /// has not been reached
    pub limit: i32,
    /// If true, returns only messages that are available locally without sending network requests
    pub only_local: bool,
}

/// Deletes all messages in the chat. Use Chat.can_be_deleted_only_for_self and
/// Chat.can_be_deleted_for_all_users fields to find whether and how the method can be applied to
/// the chat
#[derive(Debug, Clone)]
pub struct DeleteChatHistory {
    /// Chat identifier
    pub chat_id: i64,
    /// Pass true if the chat should be removed from the chat list
    pub remove_from_chat_list: bool,
    /// Pass true to try to delete chat history for all users
    pub revoke: bool,
}

impl Method for DeleteChatHistory {
    const TYPE: &'static str = "deleteChatHistory";

    type Response = Okay;
}

/// Searches for messages with given words in the chat. Returns the results in reverse chronological
/// order, i.e. in order of decreasing message_id. Cannot be used in secret chats with a non-empty
/// query
/// (searchSecretMessages should be used instead), or without an enabled message database. For
/// optimal performance the number of returned messages is chosen by the library
#[derive(Debug, Clone)]
pub struct SearchChatMessages {
    /// Identifier of the chat in which to search messages
    pub chat_id: i64,
    /// Query to search for
    pub query: String,
    /// If not 0, only messages sent by the specified user will be returned. Not supported in secret
    /// chats
    pub sender_user_id: i32,
    /// Identifier of the message starting from which history must be fetched; use 0 to get results
    /// from the last message
    pub from_message_id: i64,
    /// Specify 0 to get results from exactly the from_message_id or a negative offset to get the
    /// specified message and some newer messages
    pub offset: i32,
    /// The maximum number of messages to be returned; must be positive and can't be greater than
    /// 100. If the offset is negative, the limit must be greater than -offset. Fewer messages may
    /// be returned than specified by the limit, even if the end of the message history has not been
    /// reached
    pub limit: i32,
    /// Filter for message content in the search results
    pub filter: SearchMessagesFilter,
}

/// Searches for messages in all chats except secret chats. Returns the results in reverse
/// chronological order (i.e., in order of decreasing (date, chat_id, message_id)).
/// For optimal performance the number of returned messages is chosen by the library
#[derive(Debug, Clone)]
pub struct SearchMessages {
    /// Chat list in which to search messages; pass null to search in all chats regardless of their
    /// chat list
    pub chat_list: ChatList,
    /// Query to search for
    pub query: String,
    /// The date of the message starting from which the results should be fetched. Use 0 or any date
    /// in the future to get results from the last message
    pub offset_date: i32,
    /// The chat identifier of the last found message, or 0 for the first request
    pub offset_chat_id: i64,
    /// The message identifier of the last found message, or 0 for the first request
    pub offset_message_id: i64,
    /// The maximum number of messages to be returned, up to 100. Fewer messages may be returned
    /// than specified by the limit, even if the end of the message history has not been reached
    pub limit: i32,
}

/// Searches for messages in secret chats. Returns the results in reverse chronological order. For
/// optimal performance the number of returned messages is chosen by the library
#[derive(Debug, Clone)]
pub struct SearchSecretMessages {
    /// Identifier of the chat in which to search. Specify 0 to search in all secret chats
    pub chat_id: i64,
    /// Query to search for. If empty, searchChatMessages should be used instead
    pub query: String,
    /// The identifier from the result of a previous request, use 0 to get results from the last
    /// message
    pub from_search_id: i64,
    /// The maximum number of messages to be returned; up to 100. Fewer messages may be returned
    /// than specified by the limit, even if the end of the message history has not been reached
    pub limit: i32,
    /// A filter for the content of messages in the search results
    pub filter: SearchMessagesFilter,
}

/// Searches for call messages. Returns the results in reverse chronological order (i. e., in order
/// of decreasing message_id). For optimal performance the number of returned messages is chosen by
/// the library
#[derive(Debug, Clone)]
pub struct SearchCallMessages {
    /// Identifier of the message from which to search; use 0 to get results from the last message
    pub from_message_id: i64,
    /// The maximum number of messages to be returned; up to 100. Fewer messages may be returned
    /// than specified by the limit, even if the end of the message history has not been reached
    pub limit: i32,
    /// If true, returns only messages with missed calls
    pub only_missed: bool,
}

/// Returns information about the recent locations of chat members that were sent to the chat.
/// Returns up to 1 location message per user
#[derive(Debug, Clone)]
pub struct SearchChatRecentLocationMessages {
    /// Chat identifier
    pub chat_id: i64,
    /// The maximum number of messages to be returned
    pub limit: i32,
}

/// Returns all active live locations that should be updated by the client. The list is persistent
/// across application restarts only if the message database is used
#[derive(Debug, Clone)]
pub struct GetActiveLiveLocationMessages {}

/// Returns the last message sent in a chat no later than the specified date
#[derive(Debug, Clone)]
pub struct GetChatMessageByDate {
    /// Chat identifier
    pub chat_id: i64,
    /// Point in time (Unix timestamp) relative to which to search for messages
    pub date: i32,
}

/// Returns approximate number of messages of the specified type in the chat
#[derive(Debug, Clone)]
pub struct GetChatMessageCount {
    /// Identifier of the chat in which to count messages
    pub chat_id: i64,
    /// Filter for message content; searchMessagesFilterEmpty is unsupported in this function
    pub filter: SearchMessagesFilter,
    /// If true, returns count that is available locally without sending network requests, returning
    /// -1 if the number of messages is unknown
    pub return_local: bool,
}

impl Method for GetChatMessageCount {
    const TYPE: &'static str = "getChatMessageCount";

    type Response = Count;
}

/// Returns all scheduled messages in a chat. The messages are returned in a reverse chronological
/// order (i.e., in order of decreasing message_id)
#[derive(Debug, Clone)]
pub struct GetChatScheduledMessages {
    /// Chat identifier
    pub chat_id: i64,
}

/// Removes an active notification from notification list. Needs to be called only if the
/// notification is removed by the current user
#[derive(Debug, Clone)]
pub struct RemoveNotification {
    /// Identifier of notification group to which the notification belongs
    pub notification_group_id: i32,
    /// Identifier of removed notification
    pub notification_id: i32,
}

impl Method for RemoveNotification {
    const TYPE: &'static str = "removeNotification";

    type Response = Okay;
}

/// Removes a group of active notifications. Needs to be called only if the notification group is
/// removed by the current user
#[derive(Debug, Clone)]
pub struct RemoveNotificationGroup {
    /// Notification group identifier
    pub notification_group_id: i32,
    /// The maximum identifier of removed notifications
    pub max_notification_id: i32,
}

impl Method for RemoveNotificationGroup {
    const TYPE: &'static str = "removeNotificationGroup";

    type Response = Okay;
}

/// Returns a public HTTPS link to a message. Available only for messages in supergroups and
/// channels with a username
#[derive(Debug, Clone)]
pub struct GetPublicMessageLink {
    /// Identifier of the chat to which the message belongs
    pub chat_id: i64,
    /// Identifier of the message
    pub message_id: i64,
    /// Pass true if a link for a whole media album should be returned
    pub for_album: bool,
}

impl Method for GetPublicMessageLink {
    const TYPE: &'static str = "getPublicMessageLink";

    type Response = PublicMessageLink;
}

/// Returns a private HTTPS link to a message in a chat. Available only for already sent messages in
/// supergroups and channels. The link will work only for members of the chat
#[derive(Debug, Clone)]
pub struct GetMessageLink {
    /// Identifier of the chat to which the message belongs
    pub chat_id: i64,
    /// Identifier of the message
    pub message_id: i64,
}

impl Method for GetMessageLink {
    const TYPE: &'static str = "getMessageLink";

    type Response = HttpUrl;
}

/// Returns information about a public or private message link
#[derive(Debug, Clone)]
pub struct GetMessageLinkInfo {
    /// The message link in the format "https://t.me/c/...", or "tg://privatepost?...", or
    /// "https://t.me/username/...", or "tg://resolve?..."
    pub url: String,
}

/// Invites a bot to a chat (if it is not yet a member) and sends it the /start command. Bots can't
/// be invited to a private chat other than the chat with the bot. Bots can't be invited to channels
/// (although they can be added as admins) and secret chats. Returns the sent message
#[derive(Debug, Clone)]
pub struct SendBotStartMessage {
    /// Identifier of the bot
    pub bot_user_id: i32,
    /// Identifier of the target chat
    pub chat_id: i64,
    /// A hidden parameter sent to the bot for deep linking purposes
    /// (https://core.telegram.org/bots#deep-linking)
    pub parameter: String,
}

/// Sends the result of an inline query as a message. Returns the sent message. Always clears a chat
/// draft message
#[derive(Debug, Clone)]
pub struct SendInlineQueryResultMessage {
    /// Target chat
    pub chat_id: i64,
    /// Identifier of a message to reply to or 0
    pub reply_to_message_id: i64,
    /// Options to be used to send the message
    pub options: SendMessageOptions,
    /// Identifier of the inline query
    pub query_id: i64,
    /// Identifier of the inline result
    pub result_id: String,
    /// If true, there will be no mention of a bot, via which the message is sent. Can be used only
    /// for bots GetOption("animation_search_bot_username"), GetOption("photo_search_bot_username")
    /// and GetOption("venue_search_bot_username")
    pub hide_via_bot: bool,
}

/// Forwards previously sent messages. Returns the forwarded messages in the same order as the
/// message identifiers passed in message_ids. If a message can't be forwarded, null will be
/// returned instead of the message
#[derive(Debug, Clone)]
pub struct ForwardMessages {
    /// Identifier of the chat to which to forward messages
    pub chat_id: i64,
    /// Identifier of the chat from which to forward messages
    pub from_chat_id: i64,
    /// Identifiers of the messages to forward
    pub message_ids: Vec<i64>,
    /// Options to be used to send the messages
    pub options: SendMessageOptions,
    /// True, if the messages should be grouped into an album after forwarding. For this to work, no
    /// more than 10 messages may be forwarded, and all of them must be photo or video messages
    pub as_album: bool,
    /// True, if content of the messages needs to be copied without links to the original messages.
    /// Always true if the messages are forwarded to a secret chat
    pub send_copy: bool,
    /// True, if media captions of message copies needs to be removed. Ignored if send_copy is false
    pub remove_caption: bool,
}

/// Resends messages which failed to send. Can be called only for messages for which
/// messageSendingStateFailed.can_retry is true and after specified in
/// messageSendingStateFailed.retry_after time passed.
/// If a message is re-sent, the corresponding failed to send message is deleted. Returns the sent
/// messages in the same order as the message identifiers passed in message_ids. If a message can't
/// be re-sent, null will be returned instead of the message
#[derive(Debug, Clone)]
pub struct ResendMessages {
    /// Identifier of the chat to send messages
    pub chat_id: i64,
    /// Identifiers of the messages to resend. Message identifiers must be in a strictly increasing
    /// order
    pub message_ids: Vec<i64>,
}

/// Changes the current TTL setting (sets a new self-destruct timer) in a secret chat and sends the
/// corresponding message
#[derive(Debug, Clone)]
pub struct SendChatSetTtlMessage {
    /// Chat identifier
    pub chat_id: i64,
    /// New TTL value, in seconds
    pub ttl: i32,
}

/// Sends a notification about a screenshot taken in a chat. Supported only in private and secret
/// chats
#[derive(Debug, Clone)]
pub struct SendChatScreenshotTakenNotification {
    /// Chat identifier
    pub chat_id: i64,
}

impl Method for SendChatScreenshotTakenNotification {
    const TYPE: &'static str = "sendChatScreenshotTakenNotification";

    type Response = Okay;
}

/// Deletes messages
#[derive(Debug, Clone)]
pub struct DeleteMessages {
    /// Chat identifier
    pub chat_id: i64,
    /// Identifiers of the messages to be deleted
    pub message_ids: Vec<i64>,
    /// Pass true to try to delete messages for all chat members. Always true for supergroups,
    /// channels and secret chats
    pub revoke: bool,
}

impl Method for DeleteMessages {
    const TYPE: &'static str = "deleteMessages";

    type Response = Okay;
}

/// Deletes all messages sent by the specified user to a chat. Supported only for supergroups;
/// requires can_delete_messages administrator privileges
#[derive(Debug, Clone)]
pub struct DeleteChatMessagesFromUser {
    /// Chat identifier
    pub chat_id: i64,
    /// User identifier
    pub user_id: i32,
}

impl Method for DeleteChatMessagesFromUser {
    const TYPE: &'static str = "deleteChatMessagesFromUser";

    type Response = Okay;
}

/// Edits the message content caption. Returns the edited message after the edit is completed on the
/// server side
#[derive(Debug, Clone)]
pub struct EditMessageCaption {
    /// The chat the message belongs to
    pub chat_id: i64,
    /// Identifier of the message
    pub message_id: i64,
    /// The new message reply markup; for bots only
    pub reply_markup: Option<ReplyMarkup>,
    /// New message content caption; 0-GetOption("message_caption_length_max") characters
    pub caption: FormattedText,
}

/// Edits the message reply markup; for bots only. Returns the edited message after the edit is
/// completed on the server side
#[derive(Debug, Clone)]
pub struct EditMessageReplyMarkup {
    /// The chat the message belongs to
    pub chat_id: i64,
    /// Identifier of the message
    pub message_id: i64,
    /// The new message reply markup
    pub reply_markup: ReplyMarkup,
}

/// Edits the caption of an inline message sent via a bot; for bots only
#[derive(Debug, Clone)]
pub struct EditInlineMessageCaption {
    /// Inline message identifier
    pub inline_message_id: String,
    /// The new message reply markup
    pub reply_markup: ReplyMarkup,
    /// New message content caption; 0-GetOption("message_caption_length_max") characters
    pub caption: FormattedText,
}

impl Method for EditInlineMessageCaption {
    const TYPE: &'static str = "editInlineMessageCaption";

    type Response = Okay;
}

/// Edits the reply markup of an inline message sent via a bot; for bots only
#[derive(Debug, Clone)]
pub struct EditInlineMessageReplyMarkup {
    /// Inline message identifier
    pub inline_message_id: String,
    /// The new message reply markup
    pub reply_markup: ReplyMarkup,
}

impl Method for EditInlineMessageReplyMarkup {
    const TYPE: &'static str = "editInlineMessageReplyMarkup";

    type Response = Okay;
}

/// Edits the time when a scheduled message will be sent. Scheduling state of all messages in the
/// same album or forwarded together with the message will be also changed
#[derive(Debug, Clone)]
pub struct EditMessageSchedulingState {
    /// The chat the message belongs to
    pub chat_id: i64,
    /// Identifier of the message
    pub message_id: i64,
    /// The new message scheduling state. Pass null to send the message immediately
    pub scheduling_state: MessageSchedulingState,
}

impl Method for EditMessageSchedulingState {
    const TYPE: &'static str = "editMessageSchedulingState";

    type Response = Okay;
}

/// Returns all entities (mentions, hashtags, cashtags, bot commands, bank card numbers, URLs, and
/// email addresses) contained in the text. This is an offline method. Can be called before
/// authorization. Can be called synchronously
#[derive(Debug, Clone)]
pub struct GetTextEntities {
    /// The text in which to look for entites
    pub text: String,
}

impl Method for GetTextEntities {
    const TYPE: &'static str = "getTextEntities";

    type Response = TextEntities;
}

/// Parses Bold, Italic, Underline, Strikethrough, Code, Pre, PreCode, TextUrl and MentionName
/// entities contained in the text. This is an offline method. Can be called before authorization.
/// Can be called synchronously
#[derive(Debug, Clone)]
pub struct ParseTextEntities {
    /// The text to parse
    pub text: String,
    /// Text parse mode
    pub parse_mode: TextParseMode,
}

impl Method for ParseTextEntities {
    const TYPE: &'static str = "parseTextEntities";

    type Response = FormattedText;
}

/// Parses Markdown entities in a human-friendly format, ignoring mark up errors. This is an offline
/// method. Can be called before authorization. Can be called synchronously
#[derive(Debug, Clone)]
pub struct ParseMarkdown {
    /// The text to parse. For example, "__italic__ ~~strikethrough~~ **bold** `code` ```pre```
    /// __[italic__ text_url](telegram.org) __italic**bold italic__bold**"
    pub text: FormattedText,
}

impl Method for ParseMarkdown {
    const TYPE: &'static str = "parseMarkdown";

    type Response = FormattedText;
}

/// Replaces text entities with Markdown formatting in a human-friendly format. Entities that can't
/// be represented in Markdown unambiguously are kept as is. This is an offline method. Can be
/// called before authorization. Can be called synchronously
#[derive(Debug, Clone)]
pub struct GetMarkdownText {
    /// The text
    pub text: FormattedText,
}

impl Method for GetMarkdownText {
    const TYPE: &'static str = "getMarkdownText";

    type Response = FormattedText;
}

/// Returns the MIME type of a file, guessed by its extension. Returns an empty string on failure.
/// This is an offline method. Can be called before authorization. Can be called synchronously
#[derive(Debug, Clone)]
pub struct GetFileMimeType {
    /// The name of the file or path to the file
    pub file_name: String,
}

impl Method for GetFileMimeType {
    const TYPE: &'static str = "getFileMimeType";

    type Response = Text;
}

/// Returns the extension of a file, guessed by its MIME type. Returns an empty string on failure.
/// This is an offline method. Can be called before authorization. Can be called synchronously
#[derive(Debug, Clone)]
pub struct GetFileExtension {
    /// The MIME type of the file
    pub mime_type: String,
}

impl Method for GetFileExtension {
    const TYPE: &'static str = "getFileExtension";

    type Response = Text;
}

/// Removes potentially dangerous characters from the name of a file. The encoding of the file name
/// is supposed to be UTF-8. Returns an empty string on failure. This is an offline method. Can be
/// called before authorization. Can be called synchronously
#[derive(Debug, Clone)]
pub struct CleanFileName {
    /// File name or path to the file
    pub file_name: String,
}

impl Method for CleanFileName {
    const TYPE: &'static str = "cleanFileName";

    type Response = Text;
}

/// Returns a string stored in the local database from the specified localization target and
/// language pack by its key. Returns a 404 error if the string is not found. This is an offline
/// method. Can be called before authorization. Can be called synchronously
#[derive(Debug, Clone)]
pub struct GetLanguagePackString {
    /// Path to the language pack database in which strings are stored
    pub language_pack_database_path: String,
    /// Localization target to which the language pack belongs
    pub localization_target: String,
    /// Language pack identifier
    pub language_pack_id: String,
    /// Language pack key of the string to be returned
    pub key: String,
}

impl Method for GetLanguagePackString {
    const TYPE: &'static str = "getLanguagePackString";

    type Response = LanguagePackStringValue;
}

/// Converts a JSON-serialized string to corresponding JsonValue object. This is an offline method.
/// Can be called before authorization. Can be called synchronously
#[derive(Debug, Clone)]
pub struct GetJsonValue {
    /// The JSON-serialized string
    pub json: String,
}

/// Changes the user answer to a poll. A poll in quiz mode can be answered only once
#[derive(Debug, Clone)]
pub struct SetPollAnswer {
    /// Identifier of the chat to which the poll belongs
    pub chat_id: i64,
    /// Identifier of the message containing the poll
    pub message_id: i64,
    /// 0-based identifiers of answer options, chosen by the user. User can choose more than 1
    /// answer option only is the poll allows multiple answers
    pub option_ids: Vec<i32>,
}

impl Method for SetPollAnswer {
    const TYPE: &'static str = "setPollAnswer";

    type Response = Okay;
}

/// Returns users voted for the specified option in a non-anonymous polls. For the optimal
/// performance the number of returned users is chosen by the library
#[derive(Debug, Clone)]
pub struct GetPollVoters {
    /// Identifier of the chat to which the poll belongs
    pub chat_id: i64,
    /// Identifier of the message containing the poll
    pub message_id: i64,
    /// 0-based identifier of the answer option
    pub option_id: i32,
    /// Number of users to skip in the result; must be non-negative
    pub offset: i32,
    /// The maximum number of users to be returned; must be positive and can't be greater than 50.
    /// Fewer users may be returned than specified by the limit, even if the end of the voter list
    /// has not been reached
    pub limit: i32,
}

impl Method for GetPollVoters {
    const TYPE: &'static str = "getPollVoters";

    type Response = Users;
}

/// Stops a poll. A poll in a message can be stopped when the message has can_be_edited flag set
#[derive(Debug, Clone)]
pub struct StopPoll {
    /// Identifier of the chat to which the poll belongs
    pub chat_id: i64,
    /// Identifier of the message containing the poll
    pub message_id: i64,
    /// The new message reply markup; for bots only
    pub reply_markup: Option<ReplyMarkup>,
}

impl Method for StopPoll {
    const TYPE: &'static str = "stopPoll";

    type Response = Okay;
}

/// Returns information about a button of type inlineKeyboardButtonTypeLoginUrl. The method needs to
/// be called when the user presses the button
#[derive(Debug, Clone)]
pub struct GetLoginUrlInfo {
    /// Chat identifier of the message with the button
    pub chat_id: i64,
    /// Message identifier of the message with the button
    pub message_id: i64,
    /// Button identifier
    pub button_id: i32,
}

impl Method for GetLoginUrlInfo {
    const TYPE: &'static str = "getLoginUrlInfo";

    type Response = LoginUrlInfo;
}

/// Returns an HTTP URL which can be used to automatically authorize the user on a website after
/// clicking an inline button of type inlineKeyboardButtonTypeLoginUrl.
/// Use the method getLoginUrlInfo to find whether a prior user confirmation is needed. If an error
/// is returned, then the button must be handled as an ordinary URL button
#[derive(Debug, Clone)]
pub struct GetLoginUrl {
    /// Chat identifier of the message with the button
    pub chat_id: i64,
    /// Message identifier of the message with the button
    pub message_id: i64,
    /// Button identifier
    pub button_id: i32,
    /// True, if the user allowed the bot to send them messages
    pub allow_write_access: bool,
}

impl Method for GetLoginUrl {
    const TYPE: &'static str = "getLoginUrl";

    type Response = HttpUrl;
}

/// Sends a callback query to a bot and returns an answer. Returns an error with code 502 if the bot
/// fails to answer the query before the query timeout expires
#[derive(Debug, Clone)]
pub struct GetCallbackQueryAnswer {
    /// Identifier of the chat with the message
    pub chat_id: i64,
    /// Identifier of the message from which the query originated
    pub message_id: i64,
    /// Query payload
    pub payload: CallbackQueryPayload,
}

impl Method for GetCallbackQueryAnswer {
    const TYPE: &'static str = "getCallbackQueryAnswer";

    type Response = CallbackQueryAnswer;
}

/// Sets the result of a callback query; for bots only
#[derive(Debug, Clone)]
pub struct AnswerCallbackQuery {
    /// Identifier of the callback query
    pub callback_query_id: i64,
    /// Text of the answer
    pub text: String,
    /// If true, an alert should be shown to the user instead of a toast notification
    pub show_alert: bool,
    /// URL to be opened
    pub url: String,
    /// Time during which the result of the query can be cached, in seconds
    pub cache_time: i32,
}

impl Method for AnswerCallbackQuery {
    const TYPE: &'static str = "answerCallbackQuery";

    type Response = Okay;
}

/// Sets the result of a shipping query; for bots only
#[derive(Debug, Clone)]
pub struct AnswerShippingQuery {
    /// Identifier of the shipping query
    pub shipping_query_id: i64,
    /// Available shipping options
    pub shipping_options: Vec<ShippingOption>,
    /// An error message, empty on success
    pub error_message: String,
}

impl Method for AnswerShippingQuery {
    const TYPE: &'static str = "answerShippingQuery";

    type Response = Okay;
}

/// Sets the result of a pre-checkout query; for bots only
#[derive(Debug, Clone)]
pub struct AnswerPreCheckoutQuery {
    /// Identifier of the pre-checkout query
    pub pre_checkout_query_id: i64,
    /// An error message, empty on success
    pub error_message: String,
}

impl Method for AnswerPreCheckoutQuery {
    const TYPE: &'static str = "answerPreCheckoutQuery";

    type Response = Okay;
}

/// Updates the game score of the specified user in the game; for bots only
#[derive(Debug, Clone)]
pub struct SetGameScore {
    /// The chat to which the message with the game belongs
    pub chat_id: i64,
    /// Identifier of the message
    pub message_id: i64,
    /// True, if the message should be edited
    pub edit_message: bool,
    /// User identifier
    pub user_id: i32,
    /// The new score
    pub score: i32,
    /// Pass true to update the score even if it decreases. If the score is 0, the user will be
    /// deleted from the high score table
    pub force: bool,
}

/// Updates the game score of the specified user in a game; for bots only
#[derive(Debug, Clone)]
pub struct SetInlineGameScore {
    /// Inline message identifier
    pub inline_message_id: String,
    /// True, if the message should be edited
    pub edit_message: bool,
    /// User identifier
    pub user_id: i32,
    /// The new score
    pub score: i32,
    /// Pass true to update the score even if it decreases. If the score is 0, the user will be
    /// deleted from the high score table
    pub force: bool,
}

impl Method for SetInlineGameScore {
    const TYPE: &'static str = "setInlineGameScore";

    type Response = Okay;
}

/// Returns the high scores for a game and some part of the high score table in the range of the
/// specified user; for bots only
#[derive(Debug, Clone)]
pub struct GetGameHighScores {
    /// The chat that contains the message with the game
    pub chat_id: i64,
    /// Identifier of the message
    pub message_id: i64,
    /// User identifier
    pub user_id: i32,
}

impl Method for GetGameHighScores {
    const TYPE: &'static str = "getGameHighScores";

    type Response = GameHighScores;
}

/// Returns game high scores and some part of the high score table in the range of the specified
/// user; for bots only
#[derive(Debug, Clone)]
pub struct GetInlineGameHighScores {
    /// Inline message identifier
    pub inline_message_id: String,
    /// User identifier
    pub user_id: i32,
}

impl Method for GetInlineGameHighScores {
    const TYPE: &'static str = "getInlineGameHighScores";

    type Response = GameHighScores;
}

/// Deletes the default reply markup from a chat. Must be called after a one-time keyboard or a
/// ForceReply reply markup has been used. UpdateChatReplyMarkup will be sent if the reply markup
/// will be changed
#[derive(Debug, Clone)]
pub struct DeleteChatReplyMarkup {
    /// Chat identifier
    pub chat_id: i64,
    /// The message identifier of the used keyboard
    pub message_id: i64,
}

impl Method for DeleteChatReplyMarkup {
    const TYPE: &'static str = "deleteChatReplyMarkup";

    type Response = Okay;
}

/// Sends a notification about user activity in a chat
#[derive(Debug, Clone)]
pub struct SendChatAction {
    /// Chat identifier
    pub chat_id: i64,
    /// The action description
    pub action: ChatAction,
}

impl Method for SendChatAction {
    const TYPE: &'static str = "sendChatAction";

    type Response = Okay;
}

/// Informs TDLib that the chat is opened by the user. Many useful activities depend on the chat
/// being opened or closed (e.g., in supergroups and channels all updates are received only for
/// opened chats)
#[derive(Debug, Clone)]
pub struct OpenChat {
    /// Chat identifier
    pub chat_id: i64,
}

impl Method for OpenChat {
    const TYPE: &'static str = "openChat";

    type Response = Okay;
}

/// Informs TDLib that the chat is closed by the user. Many useful activities depend on the chat
/// being opened or closed
#[derive(Debug, Clone)]
pub struct CloseChat {
    /// Chat identifier
    pub chat_id: i64,
}

impl Method for CloseChat {
    const TYPE: &'static str = "closeChat";

    type Response = Okay;
}

/// Informs TDLib that messages are being viewed by the user. Many useful activities depend on
/// whether the messages are currently being viewed or not (e.g., marking messages as read,
/// incrementing a view counter, updating a view counter, removing deleted messages in supergroups
/// and channels)
#[derive(Debug, Clone)]
pub struct ViewMessages {
    /// Chat identifier
    pub chat_id: i64,
    /// The identifiers of the messages being viewed
    pub message_ids: Vec<i64>,
    /// True, if messages in closed chats should be marked as read
    pub force_read: bool,
}

impl Method for ViewMessages {
    const TYPE: &'static str = "viewMessages";

    type Response = Okay;
}

/// Informs TDLib that the message content has been opened (e.g., the user has opened a photo,
/// video, document, location or venue, or has listened to an audio file or voice note message). An
/// updateMessageContentOpened update will be generated if something has changed
#[derive(Debug, Clone)]
pub struct OpenMessageContent {
    /// Chat identifier of the message
    pub chat_id: i64,
    /// Identifier of the message with the opened content
    pub message_id: i64,
}

impl Method for OpenMessageContent {
    const TYPE: &'static str = "openMessageContent";

    type Response = Okay;
}

/// Marks all mentions in a chat as read
#[derive(Debug, Clone)]
pub struct ReadAllChatMentions {
    /// Chat identifier
    pub chat_id: i64,
}

impl Method for ReadAllChatMentions {
    const TYPE: &'static str = "readAllChatMentions";

    type Response = Okay;
}

/// Returns an existing chat corresponding to a given user
#[derive(Debug, Clone)]
pub struct CreatePrivateChat {
    /// User identifier
    pub user_id: i32,
    /// If true, the chat will be created without network request. In this case all information
    /// about the chat except its type, title and photo can be incorrect
    pub force: bool,
}

/// Returns an existing chat corresponding to a known basic group
#[derive(Debug, Clone)]
pub struct CreateBasicGroupChat {
    /// Basic group identifier
    pub basic_group_id: i32,
    /// If true, the chat will be created without network request. In this case all information
    /// about the chat except its type, title and photo can be incorrect
    pub force: bool,
}

/// Returns an existing chat corresponding to a known supergroup or channel
#[derive(Debug, Clone)]
pub struct CreateSupergroupChat {
    /// Supergroup or channel identifier
    pub supergroup_id: i32,
    /// If true, the chat will be created without network request. In this case all information
    /// about the chat except its type, title and photo can be incorrect
    pub force: bool,
}

/// Returns an existing chat corresponding to a known secret chat
#[derive(Debug, Clone)]
pub struct CreateSecretChat {
    /// Secret chat identifier
    pub secret_chat_id: i32,
}

/// Creates a new basic group and sends a corresponding messageBasicGroupChatCreate. Returns the
/// newly created chat
#[derive(Debug, Clone)]
pub struct CreateNewBasicGroupChat {
    /// Identifiers of users to be added to the basic group
    pub user_ids: Vec<i32>,
    /// Title of the new basic group; 1-128 characters
    pub title: String,
}

/// Creates a new secret chat. Returns the newly created chat
#[derive(Debug, Clone)]
pub struct CreateNewSecretChat {
    /// Identifier of the target user
    pub user_id: i32,
}

/// Creates a new supergroup from an existing basic group and sends a corresponding
/// messageChatUpgradeTo and messageChatUpgradeFrom; requires creator privileges. Deactivates the
/// original basic group
#[derive(Debug, Clone)]
pub struct UpgradeBasicGroupChatToSupergroupChat {
    /// Identifier of the chat to upgrade
    pub chat_id: i64,
}

/// Moves a chat to a different chat list. Current chat list of the chat must ne non-null
#[derive(Debug, Clone)]
pub struct SetChatChatList {
    /// Chat identifier
    pub chat_id: i64,
    /// New chat list of the chat. The chat with the current user (Saved Messages) and the chat
    /// 777000 (Telegram) can't be moved to the Archive chat list
    pub chat_list: ChatList,
}

impl Method for SetChatChatList {
    const TYPE: &'static str = "setChatChatList";

    type Response = Okay;
}

/// Changes the chat title. Supported only for basic groups, supergroups and channels. Requires
/// can_change_info rights. The title will not be changed until the request to the server has been
/// completed
#[derive(Debug, Clone)]
pub struct SetChatTitle {
    /// Chat identifier
    pub chat_id: i64,
    /// New title of the chat; 1-128 characters
    pub title: String,
}

impl Method for SetChatTitle {
    const TYPE: &'static str = "setChatTitle";

    type Response = Okay;
}

/// Changes the photo of a chat. Supported only for basic groups, supergroups and channels. Requires
/// can_change_info rights. The photo will not be changed before request to the server has been
/// completed
#[derive(Debug, Clone)]
pub struct SetChatPhoto {
    /// Chat identifier
    pub chat_id: i64,
    /// New chat photo. You can use a zero InputFileId to delete the chat photo. Files that are
    /// accessible only by HTTP URL are not acceptable
    pub photo: InputFile,
}

impl Method for SetChatPhoto {
    const TYPE: &'static str = "setChatPhoto";

    type Response = Okay;
}

/// Changes the chat members permissions. Supported only for basic groups and supergroups. Requires
/// can_restrict_members administrator right
#[derive(Debug, Clone)]
pub struct SetChatPermissions {
    /// Chat identifier
    pub chat_id: i64,
    /// New non-administrator members permissions in the chat
    pub permissions: ChatPermissions,
}

impl Method for SetChatPermissions {
    const TYPE: &'static str = "setChatPermissions";

    type Response = Okay;
}

/// Changes the notification settings of a chat. Notification settings of a chat with the current
/// user (Saved Messages) can't be changed
#[derive(Debug, Clone)]
pub struct SetChatNotificationSettings {
    /// Chat identifier
    pub chat_id: i64,
    /// New notification settings for the chat. If the chat is muted for more than 1 week, it is
    /// considered to be muted forever
    pub notification_settings: ChatNotificationSettings,
}

impl Method for SetChatNotificationSettings {
    const TYPE: &'static str = "setChatNotificationSettings";

    type Response = Okay;
}

/// Changes the pinned state of a chat. You can pin up to
/// GetOption("pinned_chat_count_max")/GetOption("pinned_archived_chat_count_max") non-secret chats
/// and the same number of secret chats in the main/archive chat list
#[derive(Debug, Clone)]
pub struct ToggleChatIsPinned {
    /// Chat identifier
    pub chat_id: i64,
    /// New value of is_pinned
    pub is_pinned: bool,
}

impl Method for ToggleChatIsPinned {
    const TYPE: &'static str = "toggleChatIsPinned";

    type Response = Okay;
}

/// Changes the marked as unread state of a chat
#[derive(Debug, Clone)]
pub struct ToggleChatIsMarkedAsUnread {
    /// Chat identifier
    pub chat_id: i64,
    /// New value of is_marked_as_unread
    pub is_marked_as_unread: bool,
}

impl Method for ToggleChatIsMarkedAsUnread {
    const TYPE: &'static str = "toggleChatIsMarkedAsUnread";

    type Response = Okay;
}

/// Changes the value of the default disable_notification parameter, used when a message is sent to
/// a chat
#[derive(Debug, Clone)]
pub struct ToggleChatDefaultDisableNotification {
    /// Chat identifier
    pub chat_id: i64,
    /// New value of default_disable_notification
    pub default_disable_notification: bool,
}

impl Method for ToggleChatDefaultDisableNotification {
    const TYPE: &'static str = "toggleChatDefaultDisableNotification";

    type Response = Okay;
}

/// Changes client data associated with a chat
#[derive(Debug, Clone)]
pub struct SetChatClientData {
    /// Chat identifier
    pub chat_id: i64,
    /// New value of client_data
    pub client_data: String,
}

impl Method for SetChatClientData {
    const TYPE: &'static str = "setChatClientData";

    type Response = Okay;
}

/// Changes information about a chat. Available for basic groups, supergroups, and channels.
/// Requires can_change_info rights
#[derive(Debug, Clone)]
pub struct SetChatDescription {
    /// Identifier of the chat
    pub chat_id: i64,
    /// New chat description; 0-255 characters
    pub description: String,
}

impl Method for SetChatDescription {
    const TYPE: &'static str = "setChatDescription";

    type Response = Okay;
}

/// Changes the discussion group of a channel chat; requires can_change_info rights in the channel
/// if it is specified
#[derive(Debug, Clone)]
pub struct SetChatDiscussionGroup {
    /// Identifier of the channel chat. Pass 0 to remove a link from the supergroup passed in the
    /// second argument to a linked channel chat (requires can_pin_messages rights in the
    /// supergroup)
    pub chat_id: i64,
    /// Identifier of a new channel's discussion group. Use 0 to remove the discussion group.
    /// Use the method getSuitableDiscussionChats to find all suitable groups. Basic group chats
    /// needs to be first upgraded to supergroup chats. If new chat members don't have access to old
    /// messages in the supergroup, then toggleSupergroupIsAllHistoryAvailable needs to be used
    /// first to change that
    pub discussion_chat_id: i64,
}

impl Method for SetChatDiscussionGroup {
    const TYPE: &'static str = "setChatDiscussionGroup";

    type Response = Okay;
}

/// Changes the slow mode delay of a chat. Available only for supergroups; requires
/// can_restrict_members rights
#[derive(Debug, Clone)]
pub struct SetChatSlowModeDelay {
    /// Chat identifier
    pub chat_id: i64,
    /// New slow mode delay for the chat; must be one of 0, 10, 30, 60, 300, 900, 3600
    pub slow_mode_delay: i32,
}

impl Method for SetChatSlowModeDelay {
    const TYPE: &'static str = "setChatSlowModeDelay";

    type Response = Okay;
}

/// Pins a message in a chat; requires can_pin_messages rights
#[derive(Debug, Clone)]
pub struct PinChatMessage {
    /// Identifier of the chat
    pub chat_id: i64,
    /// Identifier of the new pinned message
    pub message_id: i64,
    /// True, if there should be no notification about the pinned message
    pub disable_notification: bool,
}

impl Method for PinChatMessage {
    const TYPE: &'static str = "pinChatMessage";

    type Response = Okay;
}

/// Removes the pinned message from a chat; requires can_pin_messages rights in the group or channel
#[derive(Debug, Clone)]
pub struct UnpinChatMessage {
    /// Identifier of the chat
    pub chat_id: i64,
}

impl Method for UnpinChatMessage {
    const TYPE: &'static str = "unpinChatMessage";

    type Response = Okay;
}

/// Adds current user as a new member to a chat. Private and secret chats can't be joined using this
/// method
#[derive(Debug, Clone)]
pub struct JoinChat {
    /// Chat identifier
    pub chat_id: i64,
}

impl Method for JoinChat {
    const TYPE: &'static str = "joinChat";

    type Response = Okay;
}

/// Removes current user from chat members. Private and secret chats can't be left using this method
#[derive(Debug, Clone)]
pub struct LeaveChat {
    /// Chat identifier
    pub chat_id: i64,
}

impl Method for LeaveChat {
    const TYPE: &'static str = "leaveChat";

    type Response = Okay;
}

/// Adds a new member to a chat. Members can't be added to private or secret chats. Members will not
/// be added until the chat state has been synchronized with the server
#[derive(Debug, Clone)]
pub struct AddChatMember {
    /// Chat identifier
    pub chat_id: i64,
    /// Identifier of the user
    pub user_id: i32,
    /// The number of earlier messages from the chat to be forwarded to the new member; up to 100.
    /// Ignored for supergroups and channels
    pub forward_limit: i32,
}

impl Method for AddChatMember {
    const TYPE: &'static str = "addChatMember";

    type Response = Okay;
}

/// Adds multiple new members to a chat. Currently this option is only available for supergroups and
/// channels. This option can't be used to join a chat. Members can't be added to a channel if it
/// has more than 200 members. Members will not be added until the chat state has been synchronized
/// with the server
#[derive(Debug, Clone)]
pub struct AddChatMembers {
    /// Chat identifier
    pub chat_id: i64,
    /// Identifiers of the users to be added to the chat
    pub user_ids: Vec<i32>,
}

impl Method for AddChatMembers {
    const TYPE: &'static str = "addChatMembers";

    type Response = Okay;
}

/// Changes the status of a chat member, needs appropriate privileges. This function is currently
/// not suitable for adding new members to the chat and transferring chat ownership; instead, use
/// addChatMember or transferChatOwnership. The chat member status will not be changed until it has
/// been synchronized with the server
#[derive(Debug, Clone)]
pub struct SetChatMemberStatus {
    /// Chat identifier
    pub chat_id: i64,
    /// User identifier
    pub user_id: i32,
    /// The new status of the member in the chat
    pub status: ChatMemberStatus,
}

impl Method for SetChatMemberStatus {
    const TYPE: &'static str = "setChatMemberStatus";

    type Response = Okay;
}

/// Checks whether the current session can be used to transfer a chat ownership to another user
#[derive(Debug, Clone)]
pub struct CanTransferOwnership {}

impl Method for CanTransferOwnership {
    const TYPE: &'static str = "canTransferOwnership";

    type Response = CanTransferOwnershipResult;
}

/// Changes the owner of a chat. The current user must be a current owner of the chat. Use the
/// method canTransferOwnership to check whether the ownership can be transferred from the current
/// session. Available only for supergroups and channel chats
#[derive(Debug, Clone)]
pub struct TransferChatOwnership {
    /// Chat identifier
    pub chat_id: i64,
    /// Identifier of the user to which transfer the ownership. The ownership can't be transferred
    /// to a bot or to a deleted user
    pub user_id: i32,
    /// The password of the current user
    pub password: String,
}

impl Method for TransferChatOwnership {
    const TYPE: &'static str = "transferChatOwnership";

    type Response = Okay;
}

/// Returns information about a single member of a chat
#[derive(Debug, Clone)]
pub struct GetChatMember {
    /// Chat identifier
    pub chat_id: i64,
    /// User identifier
    pub user_id: i32,
}

impl Method for GetChatMember {
    const TYPE: &'static str = "getChatMember";

    type Response = ChatMember;
}

/// Searches for a specified query in the first name, last name and username of the members of a
/// specified chat. Requires administrator rights in channels
#[derive(Debug, Clone)]
pub struct SearchChatMembers {
    /// Chat identifier
    pub chat_id: i64,
    /// Query to search for
    pub query: String,
    /// The maximum number of users to be returned
    pub limit: i32,
    /// The type of users to return. By default, chatMembersFilterMembers
    pub filter: ChatMembersFilter,
}

impl Method for SearchChatMembers {
    const TYPE: &'static str = "searchChatMembers";

    type Response = ChatMembers;
}

/// Returns a list of administrators of the chat with their custom titles
#[derive(Debug, Clone)]
pub struct GetChatAdministrators {
    /// Chat identifier
    pub chat_id: i64,
}

impl Method for GetChatAdministrators {
    const TYPE: &'static str = "getChatAdministrators";

    type Response = ChatAdministrators;
}

/// Clears draft messages in all chats
#[derive(Debug, Clone)]
pub struct ClearAllDraftMessages {
    /// If true, local draft messages in secret chats will not be cleared
    pub exclude_secret_chats: bool,
}

impl Method for ClearAllDraftMessages {
    const TYPE: &'static str = "clearAllDraftMessages";

    type Response = Okay;
}

/// Returns list of chats with non-default notification settings
#[derive(Debug, Clone)]
pub struct GetChatNotificationSettingsExceptions {
    /// If specified, only chats from the specified scope will be returned
    pub scope: NotificationSettingsScope,
    /// If true, also chats with non-default sound will be returned
    pub compare_sound: bool,
}

impl Method for GetChatNotificationSettingsExceptions {
    const TYPE: &'static str = "getChatNotificationSettingsExceptions";

    type Response = Chats;
}

/// Returns the notification settings for chats of a given type
#[derive(Debug, Clone)]
pub struct GetScopeNotificationSettings {
    /// Types of chats for which to return the notification settings information
    pub scope: NotificationSettingsScope,
}

impl Method for GetScopeNotificationSettings {
    const TYPE: &'static str = "getScopeNotificationSettings";

    type Response = ScopeNotificationSettings;
}

/// Changes notification settings for chats of a given type
#[derive(Debug, Clone)]
pub struct SetScopeNotificationSettings {
    /// Types of chats for which to change the notification settings
    pub scope: NotificationSettingsScope,
    /// The new notification settings for the given scope
    pub notification_settings: ScopeNotificationSettings,
}

impl Method for SetScopeNotificationSettings {
    const TYPE: &'static str = "setScopeNotificationSettings";

    type Response = Okay;
}

/// Resets all notification settings to their default values. By default, all chats are unmuted, the
/// sound is set to "default" and message previews are shown
#[derive(Debug, Clone)]
pub struct ResetAllNotificationSettings {}

impl Method for ResetAllNotificationSettings {
    const TYPE: &'static str = "resetAllNotificationSettings";

    type Response = Okay;
}

/// Changes the order of pinned chats
#[derive(Debug, Clone)]
pub struct SetPinnedChats {
    /// Chat list in which to change the order of pinned chats
    pub chat_list: ChatList,
    /// The new list of pinned chats
    pub chat_ids: Vec<i64>,
}

impl Method for SetPinnedChats {
    const TYPE: &'static str = "setPinnedChats";

    type Response = Okay;
}

/// Downloads a file from the cloud. Download progress and completion of the download will be
/// notified through updateFile updates
#[derive(Debug, Clone)]
pub struct DownloadFile {
    /// Identifier of the file to download
    pub file_id: i32,
    /// Priority of the download (1-32). The higher the priority, the earlier the file will be
    /// downloaded. If the priorities of two files are equal, then the last one for which
    /// downloadFile was called will be downloaded first
    pub priority: i32,
    /// The starting position from which the file should be downloaded
    pub offset: i32,
    /// Number of bytes which should be downloaded starting from the "offset" position before the
    /// download will be automatically cancelled; use 0 to download without a limit
    pub limit: i32,
    /// If false, this request returns file state just after the download has been started. If true,
    /// this request returns file state only after
    /// the download has succeeded, has failed, has been cancelled or a new downloadFile request
    /// with different offset/limit parameters was sent
    pub synchronous: bool,
}

impl Method for DownloadFile {
    const TYPE: &'static str = "downloadFile";

    type Response = File;
}

/// Returns file downloaded prefix size from a given offset
#[derive(Debug, Clone)]
pub struct GetFileDownloadedPrefixSize {
    /// Identifier of the file
    pub file_id: i32,
    /// Offset from which downloaded prefix size should be calculated
    pub offset: i32,
}

impl Method for GetFileDownloadedPrefixSize {
    const TYPE: &'static str = "getFileDownloadedPrefixSize";

    type Response = Count;
}

/// Stops the downloading of a file. If a file has already been downloaded, does nothing
#[derive(Debug, Clone)]
pub struct CancelDownloadFile {
    /// Identifier of a file to stop downloading
    pub file_id: i32,
    /// Pass true to stop downloading only if it hasn't been started, i.e. request hasn't been sent
    /// to server
    pub only_if_pending: bool,
}

impl Method for CancelDownloadFile {
    const TYPE: &'static str = "cancelDownloadFile";

    type Response = Okay;
}

/// Asynchronously uploads a file to the cloud without sending it in a message. updateFile will be
/// used to notify about upload progress and successful completion of the upload. The file will not
/// have a persistent remote identifier until it will be sent in a message
#[derive(Debug, Clone)]
pub struct UploadFile {
    /// File to upload
    pub file: InputFile,
    /// File type
    pub file_type: FileType,
    /// Priority of the upload (1-32). The higher the priority, the earlier the file will be
    /// uploaded. If the priorities of two files are equal, then the first one for which uploadFile
    /// was called will be uploaded first
    pub priority: i32,
}

impl Method for UploadFile {
    const TYPE: &'static str = "uploadFile";

    type Response = File;
}

/// Stops the uploading of a file. Supported only for files uploaded by using uploadFile. For other
/// files the behavior is undefined
#[derive(Debug, Clone)]
pub struct CancelUploadFile {
    /// Identifier of the file to stop uploading
    pub file_id: i32,
}

impl Method for CancelUploadFile {
    const TYPE: &'static str = "cancelUploadFile";

    type Response = Okay;
}

/// Writes a part of a generated file. This method is intended to be used only if the client has no
/// direct access to TDLib's file system, because it is usually slower than a direct write to the
/// destination file
#[derive(Debug, Clone)]
pub struct WriteGeneratedFilePart {
    /// The identifier of the generation process
    pub generation_id: i64,
    /// The offset from which to write the data to the file
    pub offset: i32,
    /// The data to write
    pub data: String,
}

impl Method for WriteGeneratedFilePart {
    const TYPE: &'static str = "writeGeneratedFilePart";

    type Response = Okay;
}

/// Informs TDLib on a file generation progress
#[derive(Debug, Clone)]
pub struct SetFileGenerationProgress {
    /// The identifier of the generation process
    pub generation_id: i64,
    /// Expected size of the generated file, in bytes; 0 if unknown
    pub expected_size: i32,
    /// The number of bytes already generated
    pub local_prefix_size: i32,
}

impl Method for SetFileGenerationProgress {
    const TYPE: &'static str = "setFileGenerationProgress";

    type Response = Okay;
}

/// Finishes the file generation
#[derive(Debug, Clone)]
pub struct FinishFileGeneration {
    /// The identifier of the generation process
    pub generation_id: i64,
    /// If set, means that file generation has failed and should be terminated
    pub error: Error,
}

impl Method for FinishFileGeneration {
    const TYPE: &'static str = "finishFileGeneration";

    type Response = Okay;
}

/// Reads a part of a file from the TDLib file cache and returns read bytes. This method is intended
/// to be used only if the client has no direct access to TDLib's file system, because it is usually
/// slower than a direct read from the file
#[derive(Debug, Clone)]
pub struct ReadFilePart {
    /// Identifier of the file. The file must be located in the TDLib file cache
    pub file_id: i32,
    /// The offset from which to read the file
    pub offset: i32,
    /// Number of bytes to read. An error will be returned if there are not enough bytes available
    /// in the file from the specified position. Pass 0 to read all available data from the
    /// specified position
    pub count: i32,
}

impl Method for ReadFilePart {
    const TYPE: &'static str = "readFilePart";

    type Response = FilePart;
}

/// Deletes a file from the TDLib file cache
#[derive(Debug, Clone)]
pub struct DeleteFile {
    /// Identifier of the file to delete
    pub file_id: i32,
}

impl Method for DeleteFile {
    const TYPE: &'static str = "deleteFile";

    type Response = Okay;
}

/// Generates a new invite link for a chat; the previously generated link is revoked. Available for
/// basic groups, supergroups, and channels. Requires administrator privileges and can_invite_users
/// right
#[derive(Debug, Clone)]
pub struct GenerateChatInviteLink {
    /// Chat identifier
    pub chat_id: i64,
}

impl Method for GenerateChatInviteLink {
    const TYPE: &'static str = "generateChatInviteLink";

    type Response = ChatInviteLink;
}

/// Checks the validity of an invite link for a chat and returns information about the corresponding
/// chat
#[derive(Debug, Clone)]
pub struct CheckChatInviteLink {
    /// Invite link to be checked; should begin with "https://t.me/joinchat/",
    /// "https://telegram.me/joinchat/", or "https://telegram.dog/joinchat/"
    pub invite_link: String,
}

impl Method for CheckChatInviteLink {
    const TYPE: &'static str = "checkChatInviteLink";

    type Response = ChatInviteLinkInfo;
}

/// Uses an invite link to add the current user to the chat if possible. The new member will not be
/// added until the chat state has been synchronized with the server
#[derive(Debug, Clone)]
pub struct JoinChatByInviteLink {
    /// Invite link to import; should begin with "https://t.me/joinchat/",
    /// "https://telegram.me/joinchat/", or "https://telegram.dog/joinchat/"
    pub invite_link: String,
}

/// Creates a new call
#[derive(Debug, Clone)]
pub struct CreateCall {
    /// Identifier of the user to be called
    pub user_id: i32,
    /// Description of the call protocols supported by the client
    pub protocol: CallProtocol,
}

impl Method for CreateCall {
    const TYPE: &'static str = "createCall";

    type Response = CallId;
}

/// Accepts an incoming call
#[derive(Debug, Clone)]
pub struct AcceptCall {
    /// Call identifier
    pub call_id: i32,
    /// Description of the call protocols supported by the client
    pub protocol: CallProtocol,
}

impl Method for AcceptCall {
    const TYPE: &'static str = "acceptCall";

    type Response = Okay;
}

/// Discards a call
#[derive(Debug, Clone)]
pub struct DiscardCall {
    /// Call identifier
    pub call_id: i32,
    /// True, if the user was disconnected
    pub is_disconnected: bool,
    /// The call duration, in seconds
    pub duration: i32,
    /// Identifier of the connection used during the call
    pub connection_id: i64,
}

impl Method for DiscardCall {
    const TYPE: &'static str = "discardCall";

    type Response = Okay;
}

/// Sends a call rating
#[derive(Debug, Clone)]
pub struct SendCallRating {
    /// Call identifier
    pub call_id: i32,
    /// Call rating; 1-5
    pub rating: i32,
    /// An optional user comment if the rating is less than 5
    pub comment: String,
    /// List of the exact types of problems with the call, specified by the user
    pub problems: Vec<CallProblem>,
}

impl Method for SendCallRating {
    const TYPE: &'static str = "sendCallRating";

    type Response = Okay;
}

/// Sends debug information for a call
#[derive(Debug, Clone)]
pub struct SendCallDebugInformation {
    /// Call identifier
    pub call_id: i32,
    /// Debug information in application-specific format
    pub debug_information: String,
}

impl Method for SendCallDebugInformation {
    const TYPE: &'static str = "sendCallDebugInformation";

    type Response = Okay;
}

/// Adds a user to the blacklist
#[derive(Debug, Clone)]
pub struct BlockUser {
    /// User identifier
    pub user_id: i32,
}

impl Method for BlockUser {
    const TYPE: &'static str = "blockUser";

    type Response = Okay;
}

/// Removes a user from the blacklist
#[derive(Debug, Clone)]
pub struct UnblockUser {
    /// User identifier
    pub user_id: i32,
}

impl Method for UnblockUser {
    const TYPE: &'static str = "unblockUser";

    type Response = Okay;
}

/// Returns users that were blocked by the current user
#[derive(Debug, Clone)]
pub struct GetBlockedUsers {
    /// Number of users to skip in the result; must be non-negative
    pub offset: i32,
    /// The maximum number of users to return; up to 100
    pub limit: i32,
}

impl Method for GetBlockedUsers {
    const TYPE: &'static str = "getBlockedUsers";

    type Response = Users;
}

/// Adds a user to the contact list or edits an existing contact by their user identifier
#[derive(Debug, Clone)]
pub struct AddContact {
    /// The contact to add or edit; phone number can be empty and needs to be specified only if
    /// known, vCard is ignored
    pub contact: Contact,
    /// True, if the new contact needs to be allowed to see current user's phone number. A
    /// corresponding rule to userPrivacySettingShowPhoneNumber will be added if needed. Use the
    /// field UserFullInfo.need_phone_number_privacy_exception to check whether the current user
    /// needs to be asked to share their phone number
    pub share_phone_number: bool,
}

impl Method for AddContact {
    const TYPE: &'static str = "addContact";

    type Response = Okay;
}

/// Adds new contacts or edits existing contacts by their phone numbers; contacts' user identifiers
/// are ignored
#[derive(Debug, Clone)]
pub struct ImportContacts {
    /// The list of contacts to import or edit; contacts' vCard are ignored and are not imported
    pub contacts: Vec<Contact>,
}

impl Method for ImportContacts {
    const TYPE: &'static str = "importContacts";

    type Response = ImportedContacts;
}

/// Returns all user contacts
#[derive(Debug, Clone)]
pub struct GetContacts {}

impl Method for GetContacts {
    const TYPE: &'static str = "getContacts";

    type Response = Users;
}

/// Searches for the specified query in the first names, last names and usernames of the known user
/// contacts
#[derive(Debug, Clone)]
pub struct SearchContacts {
    /// Query to search for; may be empty to return all contacts
    pub query: String,
    /// The maximum number of users to be returned
    pub limit: i32,
}

impl Method for SearchContacts {
    const TYPE: &'static str = "searchContacts";

    type Response = Users;
}

/// Removes users from the contact list
#[derive(Debug, Clone)]
pub struct RemoveContacts {
    /// Identifiers of users to be deleted
    pub user_ids: Vec<i32>,
}

impl Method for RemoveContacts {
    const TYPE: &'static str = "removeContacts";

    type Response = Okay;
}

/// Returns the total number of imported contacts
#[derive(Debug, Clone)]
pub struct GetImportedContactCount {}

impl Method for GetImportedContactCount {
    const TYPE: &'static str = "getImportedContactCount";

    type Response = Count;
}

/// Changes imported contacts using the list of current user contacts saved on the device. Imports
/// newly added contacts and, if at least the file database is enabled, deletes recently deleted
/// contacts.
/// Query result depends on the result of the previous query, so only one query is possible at the
/// same time
#[derive(Debug, Clone)]
pub struct ChangeImportedContacts {
    /// The new list of contacts, contact's vCard are ignored and are not imported
    pub contacts: Vec<Contact>,
}

impl Method for ChangeImportedContacts {
    const TYPE: &'static str = "changeImportedContacts";

    type Response = ImportedContacts;
}

/// Clears all imported contacts, contact list remains unchanged
#[derive(Debug, Clone)]
pub struct ClearImportedContacts {}

impl Method for ClearImportedContacts {
    const TYPE: &'static str = "clearImportedContacts";

    type Response = Okay;
}

/// Shares the phone number of the current user with a mutual contact. Supposed to be called when
/// the user clicks on chatActionBarSharePhoneNumber
#[derive(Debug, Clone)]
pub struct SharePhoneNumber {
    /// Identifier of the user with whom to share the phone number. The user must be a mutual
    /// contact
    pub user_id: i32,
}

impl Method for SharePhoneNumber {
    const TYPE: &'static str = "sharePhoneNumber";

    type Response = Okay;
}

/// Returns the profile photos of a user. The result of this query may be outdated: some photos
/// might have been deleted already
#[derive(Debug, Clone)]
pub struct GetUserProfilePhotos {
    /// User identifier
    pub user_id: i32,
    /// The number of photos to skip; must be non-negative
    pub offset: i32,
    /// The maximum number of photos to be returned; up to 100
    pub limit: i32,
}

impl Method for GetUserProfilePhotos {
    const TYPE: &'static str = "getUserProfilePhotos";

    type Response = UserProfilePhotos;
}

/// Returns stickers from the installed sticker sets that correspond to a given emoji. If the emoji
/// is not empty, favorite and recently used stickers may also be returned
#[derive(Debug, Clone)]
pub struct GetStickers {
    /// String representation of emoji. If empty, returns all known installed stickers
    pub emoji: String,
    /// The maximum number of stickers to be returned
    pub limit: i32,
}

/// Searches for stickers from public sticker sets that correspond to a given emoji
#[derive(Debug, Clone)]
pub struct SearchStickers {
    /// String representation of emoji; must be non-empty
    pub emoji: String,
    /// The maximum number of stickers to be returned
    pub limit: i32,
}

/// Returns a list of installed sticker sets
#[derive(Debug, Clone)]
pub struct GetInstalledStickerSets {
    /// Pass true to return mask sticker sets; pass false to return ordinary sticker sets
    pub is_masks: bool,
}

/// Returns a list of archived sticker sets
#[derive(Debug, Clone)]
pub struct GetArchivedStickerSets {
    /// Pass true to return mask stickers sets; pass false to return ordinary sticker sets
    pub is_masks: bool,
    /// Identifier of the sticker set from which to return the result
    pub offset_sticker_set_id: i64,
    /// The maximum number of sticker sets to return
    pub limit: i32,
}

/// Returns a list of trending sticker sets. For the optimal performance the number of returned
/// sticker sets is chosen by the library
#[derive(Debug, Clone)]
pub struct GetTrendingStickerSets {
    /// The offset from which to return the sticker sets; must be non-negative
    pub offset: i32,
    /// The maximum number of sticker sets to be returned; must be non-negative. Fewer sticker sets
    /// may be returned than specified by the limit, even if the end of the list has not been
    /// reached
    pub limit: i32,
}

/// Returns a list of sticker sets attached to a file. Currently only photos and videos can have
/// attached sticker sets
#[derive(Debug, Clone)]
pub struct GetAttachedStickerSets {
    /// File identifier
    pub file_id: i32,
}

/// Returns information about a sticker set by its identifier
#[derive(Debug, Clone)]
pub struct GetStickerSet {
    /// Identifier of the sticker set
    pub set_id: i64,
}

/// Searches for a sticker set by its name
#[derive(Debug, Clone)]
pub struct SearchStickerSet {
    /// Name of the sticker set
    pub name: String,
}

/// Searches for installed sticker sets by looking for specified query in their title and name
#[derive(Debug, Clone)]
pub struct SearchInstalledStickerSets {
    /// Pass true to return mask sticker sets; pass false to return ordinary sticker sets
    pub is_masks: bool,
    /// Query to search for
    pub query: String,
    /// The maximum number of sticker sets to return
    pub limit: i32,
}

/// Searches for ordinary sticker sets by looking for specified query in their title and name.
/// Excludes installed sticker sets from the results
#[derive(Debug, Clone)]
pub struct SearchStickerSets {
    /// Query to search for
    pub query: String,
}

/// Installs/uninstalls or activates/archives a sticker set
#[derive(Debug, Clone)]
pub struct ChangeStickerSet {
    /// Identifier of the sticker set
    pub set_id: i64,
    /// The new value of is_installed
    pub is_installed: bool,
    /// The new value of is_archived. A sticker set can't be installed and archived simultaneously
    pub is_archived: bool,
}

impl Method for ChangeStickerSet {
    const TYPE: &'static str = "changeStickerSet";

    type Response = Okay;
}

/// Informs the server that some trending sticker sets have been viewed by the user
#[derive(Debug, Clone)]
pub struct ViewTrendingStickerSets {
    /// Identifiers of viewed trending sticker sets
    pub sticker_set_ids: Vec<i64>,
}

impl Method for ViewTrendingStickerSets {
    const TYPE: &'static str = "viewTrendingStickerSets";

    type Response = Okay;
}

/// Changes the order of installed sticker sets
#[derive(Debug, Clone)]
pub struct ReorderInstalledStickerSets {
    /// Pass true to change the order of mask sticker sets; pass false to change the order of
    /// ordinary sticker sets
    pub is_masks: bool,
    /// Identifiers of installed sticker sets in the new correct order
    pub sticker_set_ids: Vec<i64>,
}

impl Method for ReorderInstalledStickerSets {
    const TYPE: &'static str = "reorderInstalledStickerSets";

    type Response = Okay;
}

/// Returns a list of recently used stickers
#[derive(Debug, Clone)]
pub struct GetRecentStickers {
    /// Pass true to return stickers and masks that were recently attached to photos or video files;
    /// pass false to return recently sent stickers
    pub is_attached: bool,
}

/// Manually adds a new sticker to the list of recently used stickers. The new sticker is added to
/// the top of the list. If the sticker was already in the list, it is removed from the list first.
/// Only stickers belonging to a sticker set can be added to this list
#[derive(Debug, Clone)]
pub struct AddRecentSticker {
    /// Pass true to add the sticker to the list of stickers recently attached to photo or video
    /// files; pass false to add the sticker to the list of recently sent stickers
    pub is_attached: bool,
    /// Sticker file to add
    pub sticker: InputFile,
}

/// Removes a sticker from the list of recently used stickers
#[derive(Debug, Clone)]
pub struct RemoveRecentSticker {
    /// Pass true to remove the sticker from the list of stickers recently attached to photo or
    /// video files; pass false to remove the sticker from the list of recently sent stickers
    pub is_attached: bool,
    /// Sticker file to delete
    pub sticker: InputFile,
}

impl Method for RemoveRecentSticker {
    const TYPE: &'static str = "removeRecentSticker";

    type Response = Okay;
}

/// Clears the list of recently used stickers
#[derive(Debug, Clone)]
pub struct ClearRecentStickers {
    /// Pass true to clear the list of stickers recently attached to photo or video files; pass
    /// false to clear the list of recently sent stickers
    pub is_attached: bool,
}

impl Method for ClearRecentStickers {
    const TYPE: &'static str = "clearRecentStickers";

    type Response = Okay;
}

/// Returns favorite stickers
#[derive(Debug, Clone)]
pub struct GetFavoriteStickers {}

/// Adds a new sticker to the list of favorite stickers. The new sticker is added to the top of the
/// list. If the sticker was already in the list, it is removed from the list first. Only stickers
/// belonging to a sticker set can be added to this list
#[derive(Debug, Clone)]
pub struct AddFavoriteSticker {
    /// Sticker file to add
    pub sticker: InputFile,
}

impl Method for AddFavoriteSticker {
    const TYPE: &'static str = "addFavoriteSticker";

    type Response = Okay;
}

/// Removes a sticker from the list of favorite stickers
#[derive(Debug, Clone)]
pub struct RemoveFavoriteSticker {
    /// Sticker file to delete from the list
    pub sticker: InputFile,
}

impl Method for RemoveFavoriteSticker {
    const TYPE: &'static str = "removeFavoriteSticker";

    type Response = Okay;
}

/// Returns emoji corresponding to a sticker. The list is only for informational purposes, because a
/// sticker is always sent with a fixed emoji from the corresponding Sticker object
#[derive(Debug, Clone)]
pub struct GetStickerEmojis {
    /// Sticker file identifier
    pub sticker: InputFile,
}

impl Method for GetStickerEmojis {
    const TYPE: &'static str = "getStickerEmojis";

    type Response = Emojis;
}

/// Searches for emojis by keywords. Supported only if the file database is enabled
#[derive(Debug, Clone)]
pub struct SearchEmojis {
    /// Text to search for
    pub text: String,
    /// True, if only emojis, which exactly match text needs to be returned
    pub exact_match: bool,
    /// List of possible IETF language tags of the user's input language; may be empty if unknown
    pub input_language_codes: Vec<String>,
}

impl Method for SearchEmojis {
    const TYPE: &'static str = "searchEmojis";

    type Response = Emojis;
}

/// Returns an HTTP URL which can be used to automatically log in to the translation platform and
/// suggest new emoji replacements. The URL will be valid for 30 seconds after generation
#[derive(Debug, Clone)]
pub struct GetEmojiSuggestionsUrl {
    /// Language code for which the emoji replacements will be suggested
    pub language_code: String,
}

impl Method for GetEmojiSuggestionsUrl {
    const TYPE: &'static str = "getEmojiSuggestionsUrl";

    type Response = HttpUrl;
}

/// Returns saved animations
#[derive(Debug, Clone)]
pub struct GetSavedAnimations {}

impl Method for GetSavedAnimations {
    const TYPE: &'static str = "getSavedAnimations";

    type Response = Animations;
}

/// Manually adds a new animation to the list of saved animations. The new animation is added to the
/// beginning of the list. If the animation was already in the list, it is removed first. Only
/// non-secret video animations with MIME type "video/mp4" can be added to the list
#[derive(Debug, Clone)]
pub struct AddSavedAnimation {
    /// The animation file to be added. Only animations known to the server (i.e. successfully sent
    /// via a message) can be added to the list
    pub animation: InputFile,
}

impl Method for AddSavedAnimation {
    const TYPE: &'static str = "addSavedAnimation";

    type Response = Okay;
}

/// Removes an animation from the list of saved animations
#[derive(Debug, Clone)]
pub struct RemoveSavedAnimation {
    /// Animation file to be removed
    pub animation: InputFile,
}

impl Method for RemoveSavedAnimation {
    const TYPE: &'static str = "removeSavedAnimation";

    type Response = Okay;
}

/// Returns up to 20 recently used inline bots in the order of their last usage
#[derive(Debug, Clone)]
pub struct GetRecentInlineBots {}

impl Method for GetRecentInlineBots {
    const TYPE: &'static str = "getRecentInlineBots";

    type Response = Users;
}

/// Searches for recently used hashtags by their prefix
#[derive(Debug, Clone)]
pub struct SearchHashtags {
    /// Hashtag prefix to search for
    pub prefix: String,
    /// The maximum number of hashtags to be returned
    pub limit: i32,
}

impl Method for SearchHashtags {
    const TYPE: &'static str = "searchHashtags";

    type Response = Hashtags;
}

/// Removes a hashtag from the list of recently used hashtags
#[derive(Debug, Clone)]
pub struct RemoveRecentHashtag {
    /// Hashtag to delete
    pub hashtag: String,
}

impl Method for RemoveRecentHashtag {
    const TYPE: &'static str = "removeRecentHashtag";

    type Response = Okay;
}

/// Returns a web page preview by the text of the message. Do not call this function too often.
/// Returns a 404 error if the web page has no preview
#[derive(Debug, Clone)]
pub struct GetWebPagePreview {
    /// Message text with formatting
    pub text: FormattedText,
}

/// Returns an instant view version of a web page if available. Returns a 404 error if the web page
/// has no instant view page
#[derive(Debug, Clone)]
pub struct GetWebPageInstantView {
    /// The web page URL
    pub url: String,
    /// If true, the full instant view for the web page will be returned
    pub force_full: bool,
}

/// Uploads a new profile photo for the current user. If something changes, updateUser will be sent
#[derive(Debug, Clone)]
pub struct SetProfilePhoto {
    /// Profile photo to set. inputFileId and inputFileRemote may still be unsupported
    pub photo: InputFile,
}

impl Method for SetProfilePhoto {
    const TYPE: &'static str = "setProfilePhoto";

    type Response = Okay;
}

/// Deletes a profile photo. If something changes, updateUser will be sent
#[derive(Debug, Clone)]
pub struct DeleteProfilePhoto {
    /// Identifier of the profile photo to delete
    pub profile_photo_id: i64,
}

impl Method for DeleteProfilePhoto {
    const TYPE: &'static str = "deleteProfilePhoto";

    type Response = Okay;
}

/// Changes the first and last name of the current user. If something changes, updateUser will be
/// sent
#[derive(Debug, Clone)]
pub struct SetName {
    /// The new value of the first name for the user; 1-64 characters
    pub first_name: String,
    /// The new value of the optional last name for the user; 0-64 characters
    pub last_name: String,
}

impl Method for SetName {
    const TYPE: &'static str = "setName";

    type Response = Okay;
}

/// Changes the bio of the current user
#[derive(Debug, Clone)]
pub struct SetBio {
    /// The new value of the user bio; 0-70 characters without line feeds
    pub bio: String,
}

impl Method for SetBio {
    const TYPE: &'static str = "setBio";

    type Response = Okay;
}

/// Changes the username of the current user. If something changes, updateUser will be sent
#[derive(Debug, Clone)]
pub struct SetUsername {
    /// The new value of the username. Use an empty string to remove the username
    pub username: String,
}

impl Method for SetUsername {
    const TYPE: &'static str = "setUsername";

    type Response = Okay;
}

/// Changes the phone number of the user and sends an authentication code to the user's new phone
/// number. On success, returns information about the sent code
#[derive(Debug, Clone)]
pub struct ChangePhoneNumber {
    /// The new phone number of the user in international format
    pub phone_number: String,
    /// Settings for the authentication of the user's phone number
    pub settings: PhoneNumberAuthenticationSettings,
}

impl Method for ChangePhoneNumber {
    const TYPE: &'static str = "changePhoneNumber";

    type Response = AuthenticationCodeInfo;
}

/// Re-sends the authentication code sent to confirm a new phone number for the user. Works only if
/// the previously received authenticationCodeInfo next_code_type was not null
#[derive(Debug, Clone)]
pub struct ResendChangePhoneNumberCode {}

impl Method for ResendChangePhoneNumberCode {
    const TYPE: &'static str = "resendChangePhoneNumberCode";

    type Response = AuthenticationCodeInfo;
}

/// Checks the authentication code sent to confirm a new phone number of the user
#[derive(Debug, Clone)]
pub struct CheckChangePhoneNumberCode {
    /// Verification code received by SMS, phone call or flash call
    pub code: String,
}

impl Method for CheckChangePhoneNumberCode {
    const TYPE: &'static str = "checkChangePhoneNumberCode";

    type Response = Okay;
}

/// Sets the list of commands supported by the bot; for bots only
#[derive(Debug, Clone)]
pub struct SetCommands {
    /// List of the bot's commands
    pub commands: Vec<BotCommand>,
}

impl Method for SetCommands {
    const TYPE: &'static str = "setCommands";

    type Response = Okay;
}

/// Returns all active sessions of the current user
#[derive(Debug, Clone)]
pub struct GetActiveSessions {}

impl Method for GetActiveSessions {
    const TYPE: &'static str = "getActiveSessions";

    type Response = Sessions;
}

/// Terminates a session of the current user
#[derive(Debug, Clone)]
pub struct TerminateSession {
    /// Session identifier
    pub session_id: i64,
}

impl Method for TerminateSession {
    const TYPE: &'static str = "terminateSession";

    type Response = Okay;
}

/// Terminates all other sessions of the current user
#[derive(Debug, Clone)]
pub struct TerminateAllOtherSessions {}

impl Method for TerminateAllOtherSessions {
    const TYPE: &'static str = "terminateAllOtherSessions";

    type Response = Okay;
}

/// Returns all website where the current user used Telegram to log in
#[derive(Debug, Clone)]
pub struct GetConnectedWebsites {}

impl Method for GetConnectedWebsites {
    const TYPE: &'static str = "getConnectedWebsites";

    type Response = ConnectedWebsites;
}

/// Disconnects website from the current user's Telegram account
#[derive(Debug, Clone)]
pub struct DisconnectWebsite {
    /// Website identifier
    pub website_id: i64,
}

impl Method for DisconnectWebsite {
    const TYPE: &'static str = "disconnectWebsite";

    type Response = Okay;
}

/// Disconnects all websites from the current user's Telegram account
#[derive(Debug, Clone)]
pub struct DisconnectAllWebsites {}

impl Method for DisconnectAllWebsites {
    const TYPE: &'static str = "disconnectAllWebsites";

    type Response = Okay;
}

/// Changes the username of a supergroup or channel, requires owner privileges in the supergroup or
/// channel
#[derive(Debug, Clone)]
pub struct SetSupergroupUsername {
    /// Identifier of the supergroup or channel
    pub supergroup_id: i32,
    /// New value of the username. Use an empty string to remove the username
    pub username: String,
}

impl Method for SetSupergroupUsername {
    const TYPE: &'static str = "setSupergroupUsername";

    type Response = Okay;
}

/// Changes the sticker set of a supergroup; requires can_change_info rights
#[derive(Debug, Clone)]
pub struct SetSupergroupStickerSet {
    /// Identifier of the supergroup
    pub supergroup_id: i32,
    /// New value of the supergroup sticker set identifier. Use 0 to remove the supergroup sticker
    /// set
    pub sticker_set_id: i64,
}

impl Method for SetSupergroupStickerSet {
    const TYPE: &'static str = "setSupergroupStickerSet";

    type Response = Okay;
}

/// Toggles sender signatures messages sent in a channel; requires can_change_info rights
#[derive(Debug, Clone)]
pub struct ToggleSupergroupSignMessages {
    /// Identifier of the channel
    pub supergroup_id: i32,
    /// New value of sign_messages
    pub sign_messages: bool,
}

impl Method for ToggleSupergroupSignMessages {
    const TYPE: &'static str = "toggleSupergroupSignMessages";

    type Response = Okay;
}

/// Toggles whether the message history of a supergroup is available to new members; requires
/// can_change_info rights
#[derive(Debug, Clone)]
pub struct ToggleSupergroupIsAllHistoryAvailable {
    /// The identifier of the supergroup
    pub supergroup_id: i32,
    /// The new value of is_all_history_available
    pub is_all_history_available: bool,
}

impl Method for ToggleSupergroupIsAllHistoryAvailable {
    const TYPE: &'static str = "toggleSupergroupIsAllHistoryAvailable";

    type Response = Okay;
}

/// Reports some messages from a user in a supergroup as spam; requires administrator rights in the
/// supergroup
#[derive(Debug, Clone)]
pub struct ReportSupergroupSpam {
    /// Supergroup identifier
    pub supergroup_id: i32,
    /// User identifier
    pub user_id: i32,
    /// Identifiers of messages sent in the supergroup by the user. This list must be non-empty
    pub message_ids: Vec<i64>,
}

impl Method for ReportSupergroupSpam {
    const TYPE: &'static str = "reportSupergroupSpam";

    type Response = Okay;
}

/// Returns information about members or banned users in a supergroup or channel. Can be used only
/// if SupergroupFullInfo.can_get_members == true; additionally, administrator privileges may be
/// required for some filters
#[derive(Debug, Clone)]
pub struct GetSupergroupMembers {
    /// Identifier of the supergroup or channel
    pub supergroup_id: i32,
    /// The type of users to return. By default, supergroupMembersRecent
    pub filter: SupergroupMembersFilter,
    /// Number of users to skip
    pub offset: i32,
    /// The maximum number of users be returned; up to 200
    pub limit: i32,
}

impl Method for GetSupergroupMembers {
    const TYPE: &'static str = "getSupergroupMembers";

    type Response = ChatMembers;
}

/// Deletes a supergroup or channel along with all messages in the corresponding chat. This will
/// release the supergroup or channel username and remove all members; requires owner privileges in
/// the supergroup or channel. Chats with more than 1000 members can't be deleted using this method
#[derive(Debug, Clone)]
pub struct DeleteSupergroup {
    /// Identifier of the supergroup or channel
    pub supergroup_id: i32,
}

impl Method for DeleteSupergroup {
    const TYPE: &'static str = "deleteSupergroup";

    type Response = Okay;
}

/// Closes a secret chat, effectively transferring its state to secretChatStateClosed
#[derive(Debug, Clone)]
pub struct CloseSecretChat {
    /// Secret chat identifier
    pub secret_chat_id: i32,
}

impl Method for CloseSecretChat {
    const TYPE: &'static str = "closeSecretChat";

    type Response = Okay;
}

/// Returns a list of service actions taken by chat members and administrators in the last 48 hours.
/// Available only for supergroups and channels. Requires administrator rights. Returns results in
/// reverse chronological order (i. e., in order of decreasing event_id)
#[derive(Debug, Clone)]
pub struct GetChatEventLog {
    /// Chat identifier
    pub chat_id: i64,
    /// Search query by which to filter events
    pub query: String,
    /// Identifier of an event from which to return results. Use 0 to get results from the latest
    /// events
    pub from_event_id: i64,
    /// The maximum number of events to return; up to 100
    pub limit: i32,
    /// The types of events to return. By default, all types will be returned
    pub filters: ChatEventLogFilters,
    /// User identifiers by which to filter events. By default, events relating to all users will be
    /// returned
    pub user_ids: Vec<i32>,
}

/// Returns an invoice payment form. This method should be called when the user presses
/// inlineKeyboardButtonBuy
#[derive(Debug, Clone)]
pub struct GetPaymentForm {
    /// Chat identifier of the Invoice message
    pub chat_id: i64,
    /// Message identifier
    pub message_id: i64,
}

impl Method for GetPaymentForm {
    const TYPE: &'static str = "getPaymentForm";

    type Response = PaymentForm;
}

/// Validates the order information provided by a user and returns the available shipping options
/// for a flexible invoice
#[derive(Debug, Clone)]
pub struct ValidateOrderInfo {
    /// Chat identifier of the Invoice message
    pub chat_id: i64,
    /// Message identifier
    pub message_id: i64,
    /// The order information, provided by the user
    pub order_info: OrderInfo,
    /// True, if the order information can be saved
    pub allow_save: bool,
}

impl Method for ValidateOrderInfo {
    const TYPE: &'static str = "validateOrderInfo";

    type Response = ValidatedOrderInfo;
}

/// Sends a filled-out payment form to the bot for final verification
#[derive(Debug, Clone)]
pub struct SendPaymentForm {
    /// Chat identifier of the Invoice message
    pub chat_id: i64,
    /// Message identifier
    pub message_id: i64,
    /// Identifier returned by ValidateOrderInfo, or an empty string
    pub order_info_id: String,
    /// Identifier of a chosen shipping option, if applicable
    pub shipping_option_id: String,
    /// The credentials chosen by user for payment
    pub credentials: InputCredentials,
}

impl Method for SendPaymentForm {
    const TYPE: &'static str = "sendPaymentForm";

    type Response = PaymentResult;
}

/// Returns information about a successful payment
#[derive(Debug, Clone)]
pub struct GetPaymentReceipt {
    /// Chat identifier of the PaymentSuccessful message
    pub chat_id: i64,
    /// Message identifier
    pub message_id: i64,
}

impl Method for GetPaymentReceipt {
    const TYPE: &'static str = "getPaymentReceipt";

    type Response = PaymentReceipt;
}

/// Returns saved order info, if any
#[derive(Debug, Clone)]
pub struct GetSavedOrderInfo {}

impl Method for GetSavedOrderInfo {
    const TYPE: &'static str = "getSavedOrderInfo";

    type Response = OrderInfo;
}

/// Deletes saved order info
#[derive(Debug, Clone)]
pub struct DeleteSavedOrderInfo {}

impl Method for DeleteSavedOrderInfo {
    const TYPE: &'static str = "deleteSavedOrderInfo";

    type Response = Okay;
}

/// Deletes saved credentials for all payment provider bots
#[derive(Debug, Clone)]
pub struct DeleteSavedCredentials {}

impl Method for DeleteSavedCredentials {
    const TYPE: &'static str = "deleteSavedCredentials";

    type Response = Okay;
}

/// Returns a user that can be contacted to get support
#[derive(Debug, Clone)]
pub struct GetSupportUser {}

impl Method for GetSupportUser {
    const TYPE: &'static str = "getSupportUser";

    type Response = User;
}

/// Returns backgrounds installed by the user
#[derive(Debug, Clone)]
pub struct GetBackgrounds {
    /// True, if the backgrounds needs to be ordered for dark theme
    pub for_dark_theme: bool,
}

impl Method for GetBackgrounds {
    const TYPE: &'static str = "getBackgrounds";

    type Response = Backgrounds;
}

/// Constructs a persistent HTTP URL for a background
#[derive(Debug, Clone)]
pub struct GetBackgroundUrl {
    /// Background name
    pub name: String,
    /// Background type
    pub type_: BackgroundType,
}

impl Method for GetBackgroundUrl {
    const TYPE: &'static str = "getBackgroundUrl";

    type Response = HttpUrl;
}

/// Searches for a background by its name
#[derive(Debug, Clone)]
pub struct SearchBackground {
    /// The name of the background
    pub name: String,
}

impl Method for SearchBackground {
    const TYPE: &'static str = "searchBackground";

    type Response = Background;
}

/// Changes the background selected by the user; adds background to the list of installed
/// backgrounds
#[derive(Debug, Clone)]
pub struct SetBackground {
    /// The input background to use, null for filled backgrounds
    pub background: InputBackground,
    /// Background type; null for default background. The method will return error 404 if type is
    /// null
    pub type_: BackgroundType,
    /// True, if the background is chosen for dark theme
    pub for_dark_theme: bool,
}

impl Method for SetBackground {
    const TYPE: &'static str = "setBackground";

    type Response = Background;
}

/// Removes background from the list of installed backgrounds
#[derive(Debug, Clone)]
pub struct RemoveBackground {
    /// The background identifier
    pub background_id: i64,
}

impl Method for RemoveBackground {
    const TYPE: &'static str = "removeBackground";

    type Response = Okay;
}

/// Resets list of installed backgrounds to its default value
#[derive(Debug, Clone)]
pub struct ResetBackgrounds {}

impl Method for ResetBackgrounds {
    const TYPE: &'static str = "resetBackgrounds";

    type Response = Okay;
}

/// Returns information about the current localization target. This is an offline request if
/// only_local is true. Can be called before authorization
#[derive(Debug, Clone)]
pub struct GetLocalizationTargetInfo {
    /// If true, returns only locally available information without sending network requests
    pub only_local: bool,
}

impl Method for GetLocalizationTargetInfo {
    const TYPE: &'static str = "getLocalizationTargetInfo";

    type Response = LocalizationTargetInfo;
}

/// Returns information about a language pack. Returned language pack identifier may be different
/// from a provided one. Can be called before authorization
#[derive(Debug, Clone)]
pub struct GetLanguagePackInfo {
    /// Language pack identifier
    pub language_pack_id: String,
}

impl Method for GetLanguagePackInfo {
    const TYPE: &'static str = "getLanguagePackInfo";

    type Response = LanguagePackInfo;
}

/// Returns strings from a language pack in the current localization target by their keys. Can be
/// called before authorization
#[derive(Debug, Clone)]
pub struct GetLanguagePackStrings {
    /// Language pack identifier of the strings to be returned
    pub language_pack_id: String,
    /// Language pack keys of the strings to be returned; leave empty to request all available
    /// strings
    pub keys: Vec<String>,
}

impl Method for GetLanguagePackStrings {
    const TYPE: &'static str = "getLanguagePackStrings";

    type Response = LanguagePackStrings;
}

/// Fetches the latest versions of all strings from a language pack in the current localization
/// target from the server. This method doesn't need to be called explicitly for the current
/// used/base language packs. Can be called before authorization
#[derive(Debug, Clone)]
pub struct SynchronizeLanguagePack {
    /// Language pack identifier
    pub language_pack_id: String,
}

impl Method for SynchronizeLanguagePack {
    const TYPE: &'static str = "synchronizeLanguagePack";

    type Response = Okay;
}

/// Adds a custom server language pack to the list of installed language packs in current
/// localization target. Can be called before authorization
#[derive(Debug, Clone)]
pub struct AddCustomServerLanguagePack {
    /// Identifier of a language pack to be added; may be different from a name that is used in an
    /// "https://t.me/setlanguage/" link
    pub language_pack_id: String,
}

impl Method for AddCustomServerLanguagePack {
    const TYPE: &'static str = "addCustomServerLanguagePack";

    type Response = Okay;
}

/// Adds or changes a custom local language pack to the current localization target
#[derive(Debug, Clone)]
pub struct SetCustomLanguagePack {
    /// Information about the language pack. Language pack ID must start with 'X', consist only of
    /// English letters, digits and hyphens, and must not exceed 64 characters. Can be called before
    /// authorization
    pub info: LanguagePackInfo,
    /// Strings of the new language pack
    pub strings: Vec<LanguagePackString>,
}

impl Method for SetCustomLanguagePack {
    const TYPE: &'static str = "setCustomLanguagePack";

    type Response = Okay;
}

/// Edits information about a custom local language pack in the current localization target. Can be
/// called before authorization
#[derive(Debug, Clone)]
pub struct EditCustomLanguagePackInfo {
    /// New information about the custom local language pack
    pub info: LanguagePackInfo,
}

impl Method for EditCustomLanguagePackInfo {
    const TYPE: &'static str = "editCustomLanguagePackInfo";

    type Response = Okay;
}

/// Adds, edits or deletes a string in a custom local language pack. Can be called before
/// authorization
#[derive(Debug, Clone)]
pub struct SetCustomLanguagePackString {
    /// Identifier of a previously added custom local language pack in the current localization
    /// target
    pub language_pack_id: String,
    /// New language pack string
    pub new_string: LanguagePackString,
}

impl Method for SetCustomLanguagePackString {
    const TYPE: &'static str = "setCustomLanguagePackString";

    type Response = Okay;
}

/// Deletes all information about a language pack in the current localization target. The language
/// pack which is currently in use (including base language pack) or is being synchronized can't be
/// deleted. Can be called before authorization
#[derive(Debug, Clone)]
pub struct DeleteLanguagePack {
    /// Identifier of the language pack to delete
    pub language_pack_id: String,
}

impl Method for DeleteLanguagePack {
    const TYPE: &'static str = "deleteLanguagePack";

    type Response = Okay;
}

/// Registers the currently used device for receiving push notifications. Returns a globally unique
/// identifier of the push notification subscription
#[derive(Debug, Clone)]
pub struct RegisterDevice {
    /// Device token
    pub device_token: DeviceToken,
    /// List of user identifiers of other users currently using the client
    pub other_user_ids: Vec<i32>,
}

impl Method for RegisterDevice {
    const TYPE: &'static str = "registerDevice";

    type Response = PushReceiverId;
}

/// Handles a push notification. Returns error with code 406 if the push notification is not
/// supported and connection to the server is required to fetch new data. Can be called before
/// authorization
#[derive(Debug, Clone)]
pub struct ProcessPushNotification {
    /// JSON-encoded push notification payload with all fields sent by the server, and
    /// "google.sent_time" and "google.notification.sound" fields added
    pub payload: String,
}

impl Method for ProcessPushNotification {
    const TYPE: &'static str = "processPushNotification";

    type Response = Okay;
}

/// Returns a globally unique push notification subscription identifier for identification of an
/// account, which has received a push notification. This is an offline method. Can be called before
/// authorization. Can be called synchronously
#[derive(Debug, Clone)]
pub struct GetPushReceiverId {
    /// JSON-encoded push notification payload
    pub payload: String,
}

impl Method for GetPushReceiverId {
    const TYPE: &'static str = "getPushReceiverId";

    type Response = PushReceiverId;
}

/// Returns t.me URLs recently visited by a newly registered user
#[derive(Debug, Clone)]
pub struct GetRecentlyVisitedTMeUrls {
    /// Google Play referrer to identify the user
    pub referrer: String,
}

impl Method for GetRecentlyVisitedTMeUrls {
    const TYPE: &'static str = "getRecentlyVisitedTMeUrls";

    type Response = TMeUrls;
}

/// Changes user privacy settings
#[derive(Debug, Clone)]
pub struct SetUserPrivacySettingRules {
    /// The privacy setting
    pub setting: UserPrivacySetting,
    /// The new privacy rules
    pub rules: UserPrivacySettingRules,
}

impl Method for SetUserPrivacySettingRules {
    const TYPE: &'static str = "setUserPrivacySettingRules";

    type Response = Okay;
}

/// Returns the current privacy settings
#[derive(Debug, Clone)]
pub struct GetUserPrivacySettingRules {
    /// The privacy setting
    pub setting: UserPrivacySetting,
}

impl Method for GetUserPrivacySettingRules {
    const TYPE: &'static str = "getUserPrivacySettingRules";

    type Response = UserPrivacySettingRules;
}

/// Returns the value of an option by its name. (Check the list of available options on
/// https://core.telegram.org/tdlib/options.) Can be called before authorization
#[derive(Debug, Clone)]
pub struct GetOption {
    /// The name of the option
    pub name: String,
}

impl Method for GetOption {
    const TYPE: &'static str = "getOption";

    type Response = OptionValue;
}

/// Sets the value of an option. (Check the list of available options on
/// https://core.telegram.org/tdlib/options.) Only writable options can be set. Can be called before
/// authorization
#[derive(Debug, Clone)]
pub struct SetOption {
    /// The name of the option
    pub name: String,
    /// The new value of the option
    pub value: OptionValue,
}

impl Method for SetOption {
    const TYPE: &'static str = "setOption";

    type Response = Okay;
}

/// Changes the period of inactivity after which the account of the current user will automatically
/// be deleted
#[derive(Debug, Clone)]
pub struct SetAccountTtl {
    /// New account TTL
    pub ttl: AccountTtl,
}

impl Method for SetAccountTtl {
    const TYPE: &'static str = "setAccountTtl";

    type Response = Okay;
}

/// Returns the period of inactivity after which the account of the current user will automatically
/// be deleted
#[derive(Debug, Clone)]
pub struct GetAccountTtl {}

impl Method for GetAccountTtl {
    const TYPE: &'static str = "getAccountTtl";

    type Response = AccountTtl;
}

/// Deletes the account of the current user, deleting all information associated with the user from
/// the server. The phone number of the account can be used to create a new account. Can be called
/// before authorization when the current authorization state is authorizationStateWaitPassword
#[derive(Debug, Clone)]
pub struct DeleteAccount {
    /// The reason why the account was deleted; optional
    pub reason: String,
}

impl Method for DeleteAccount {
    const TYPE: &'static str = "deleteAccount";

    type Response = Okay;
}

/// Removes a chat action bar without any other action
#[derive(Debug, Clone)]
pub struct RemoveChatActionBar {
    /// Chat identifier
    pub chat_id: i64,
}

impl Method for RemoveChatActionBar {
    const TYPE: &'static str = "removeChatActionBar";

    type Response = Okay;
}

/// Reports a chat to the Telegram moderators. A chat can be reported only from the chat action bar,
/// or if this is a private chats with a bot, a private chat with a user sharing their location, a
/// supergroup, or a channel, since other chats can't be checked by moderators
#[derive(Debug, Clone)]
pub struct ReportChat {
    /// Chat identifier
    pub chat_id: i64,
    /// The reason for reporting the chat
    pub reason: ChatReportReason,
    /// Identifiers of reported messages, if any
    pub message_ids: Vec<i64>,
}

impl Method for ReportChat {
    const TYPE: &'static str = "reportChat";

    type Response = Okay;
}

/// Returns an HTTP URL with the chat statistics. Currently this method of getting the statistics is
/// disabled and can be deleted in the future
#[derive(Debug, Clone)]
pub struct GetChatStatisticsUrl {
    /// Chat identifier
    pub chat_id: i64,
    /// Parameters from "tg://statsrefresh?params=******" link
    pub parameters: String,
    /// Pass true if a URL with the dark theme must be returned
    pub is_dark: bool,
}

impl Method for GetChatStatisticsUrl {
    const TYPE: &'static str = "getChatStatisticsUrl";

    type Response = HttpUrl;
}

/// Returns detailed statistics about a chat. Currently this method can be used only for channels.
/// Requires administrator rights in the channel
#[derive(Debug, Clone)]
pub struct GetChatStatistics {
    /// Chat identifier
    pub chat_id: i64,
    /// Pass true if a dark theme is used by the app
    pub is_dark: bool,
}

/// Loads asynchronous or zoomed in chat statistics graph
#[derive(Debug, Clone)]
pub struct GetChatStatisticsGraph {
    /// Chat identifier
    pub chat_id: i64,
    /// The token for graph loading
    pub token: String,
    /// X-value for zoomed in graph or 0 otherwise
    pub x: i64,
}

impl Method for GetChatStatisticsGraph {
    const TYPE: &'static str = "getChatStatisticsGraph";

    type Response = StatisticsGraph;
}

/// Returns storage usage statistics. Can be called before authorization
#[derive(Debug, Clone)]
pub struct GetStorageStatistics {
    /// The maximum number of chats with the largest storage usage for which separate statistics
    /// should be returned. All other chats will be grouped in entries with chat_id == 0. If the
    /// chat info database is not used, the chat_limit is ignored and is always set to 0
    pub chat_limit: i32,
}

impl Method for GetStorageStatistics {
    const TYPE: &'static str = "getStorageStatistics";

    type Response = StorageStatistics;
}

/// Quickly returns approximate storage usage statistics. Can be called before authorization
#[derive(Debug, Clone)]
pub struct GetStorageStatisticsFast {}

impl Method for GetStorageStatisticsFast {
    const TYPE: &'static str = "getStorageStatisticsFast";

    type Response = StorageStatisticsFast;
}

/// Returns database statistics
#[derive(Debug, Clone)]
pub struct GetDatabaseStatistics {}

impl Method for GetDatabaseStatistics {
    const TYPE: &'static str = "getDatabaseStatistics";

    type Response = DatabaseStatistics;
}

/// Optimizes storage usage, i.e. deletes some files and returns new storage usage statistics.
/// Secret thumbnails can't be deleted
#[derive(Debug, Clone)]
pub struct OptimizeStorage {
    /// Limit on the total size of files after deletion. Pass -1 to use the default limit
    pub size: i64,
    /// Limit on the time that has passed since the last time a file was accessed (or creation time
    /// for some filesystems). Pass -1 to use the default limit
    pub ttl: i32,
    /// Limit on the total count of files after deletion. Pass -1 to use the default limit
    pub count: i32,
    /// The amount of time after the creation of a file during which it can't be deleted, in
    /// seconds. Pass -1 to use the default value
    pub immunity_delay: i32,
    /// If not empty, only files with the given type(s) are considered. By default, all types except
    /// thumbnails, profile photos, stickers and wallpapers are deleted
    pub file_types: Vec<FileType>,
    /// If not empty, only files from the given chats are considered. Use 0 as chat identifier to
    /// delete files not belonging to any chat (e.g., profile photos)
    pub chat_ids: Vec<i64>,
    /// If not empty, files from the given chats are excluded. Use 0 as chat identifier to exclude
    /// all files not belonging to any chat (e.g., profile photos)
    pub exclude_chat_ids: Vec<i64>,
    /// Pass true if deleted file statistics needs to be returned instead of the whole storage usage
    /// statistics. Affects only returned statistics
    pub return_deleted_file_statistics: bool,
    /// Same as in getStorageStatistics. Affects only returned statistics
    pub chat_limit: i32,
}

impl Method for OptimizeStorage {
    const TYPE: &'static str = "optimizeStorage";

    type Response = StorageStatistics;
}

/// Sets the current network type. Can be called before authorization. Calling this method forces
/// all network connections to reopen, mitigating the delay in switching between different networks,
/// so it should be called whenever the network is changed, even if the network type remains the
/// same.
/// Network type is used to check whether the library can use the network at all and also for
/// collecting detailed network data usage statistics
#[derive(Debug, Clone)]
pub struct SetNetworkType {
    /// The new network type. By default, networkTypeOther
    pub type_: NetworkType,
}

impl Method for SetNetworkType {
    const TYPE: &'static str = "setNetworkType";

    type Response = Okay;
}

/// Returns network data usage statistics. Can be called before authorization
#[derive(Debug, Clone)]
pub struct GetNetworkStatistics {
    /// If true, returns only data for the current library launch
    pub only_current: bool,
}

/// Resets all network data usage statistics to zero. Can be called before authorization
#[derive(Debug, Clone)]
pub struct ResetNetworkStatistics {}

impl Method for ResetNetworkStatistics {
    const TYPE: &'static str = "resetNetworkStatistics";

    type Response = Okay;
}

/// Returns auto-download settings presets for the current user
#[derive(Debug, Clone)]
pub struct GetAutoDownloadSettingsPresets {}

impl Method for GetAutoDownloadSettingsPresets {
    const TYPE: &'static str = "getAutoDownloadSettingsPresets";

    type Response = AutoDownloadSettingsPresets;
}

/// Sets auto-download settings
#[derive(Debug, Clone)]
pub struct SetAutoDownloadSettings {
    /// New user auto-download settings
    pub settings: AutoDownloadSettings,
    /// Type of the network for which the new settings are applied
    pub type_: NetworkType,
}

impl Method for SetAutoDownloadSettings {
    const TYPE: &'static str = "setAutoDownloadSettings";

    type Response = Okay;
}

/// Returns information about a bank card
#[derive(Debug, Clone)]
pub struct GetBankCardInfo {
    /// The bank card number
    pub bank_card_number: String,
}

impl Method for GetBankCardInfo {
    const TYPE: &'static str = "getBankCardInfo";

    type Response = BankCardInfo;
}

/// Returns one of the available Telegram Passport elements
#[derive(Debug, Clone)]
pub struct GetPassportElement {
    /// Telegram Passport element type
    pub type_: PassportElementType,
    /// Password of the current user
    pub password: String,
}

impl Method for GetPassportElement {
    const TYPE: &'static str = "getPassportElement";

    type Response = PassportElement;
}

/// Returns all available Telegram Passport elements
#[derive(Debug, Clone)]
pub struct GetAllPassportElements {
    /// Password of the current user
    pub password: String,
}

impl Method for GetAllPassportElements {
    const TYPE: &'static str = "getAllPassportElements";

    type Response = PassportElements;
}

/// Adds an element to the user's Telegram Passport. May return an error with a message
/// "PHONE_VERIFICATION_NEEDED" or "EMAIL_VERIFICATION_NEEDED" if the chosen phone number or the
/// chosen email address must be verified first
#[derive(Debug, Clone)]
pub struct SetPassportElement {
    /// Input Telegram Passport element
    pub element: InputPassportElement,
    /// Password of the current user
    pub password: String,
}

impl Method for SetPassportElement {
    const TYPE: &'static str = "setPassportElement";

    type Response = PassportElement;
}

/// Deletes a Telegram Passport element
#[derive(Debug, Clone)]
pub struct DeletePassportElement {
    /// Element type
    pub type_: PassportElementType,
}

impl Method for DeletePassportElement {
    const TYPE: &'static str = "deletePassportElement";

    type Response = Okay;
}

/// Informs the user that some of the elements in their Telegram Passport contain errors; for bots
/// only. The user will not be able to resend the elements, until the errors are fixed
#[derive(Debug, Clone)]
pub struct SetPassportElementErrors {
    /// User identifier
    pub user_id: i32,
    /// The errors
    pub errors: Vec<InputPassportElementError>,
}

impl Method for SetPassportElementErrors {
    const TYPE: &'static str = "setPassportElementErrors";

    type Response = Okay;
}

/// Returns an IETF language tag of the language preferred in the country, which should be used to
/// fill native fields in Telegram Passport personal details. Returns a 404 error if unknown
#[derive(Debug, Clone)]
pub struct GetPreferredCountryLanguage {
    /// A two-letter ISO 3166-1 alpha-2 country code
    pub country_code: String,
}

impl Method for GetPreferredCountryLanguage {
    const TYPE: &'static str = "getPreferredCountryLanguage";

    type Response = Text;
}

/// Sends a code to verify a phone number to be added to a user's Telegram Passport
#[derive(Debug, Clone)]
pub struct SendPhoneNumberVerificationCode {
    /// The phone number of the user, in international format
    pub phone_number: String,
    /// Settings for the authentication of the user's phone number
    pub settings: PhoneNumberAuthenticationSettings,
}

impl Method for SendPhoneNumberVerificationCode {
    const TYPE: &'static str = "sendPhoneNumberVerificationCode";

    type Response = AuthenticationCodeInfo;
}

/// Re-sends the code to verify a phone number to be added to a user's Telegram Passport
#[derive(Debug, Clone)]
pub struct ResendPhoneNumberVerificationCode {}

impl Method for ResendPhoneNumberVerificationCode {
    const TYPE: &'static str = "resendPhoneNumberVerificationCode";

    type Response = AuthenticationCodeInfo;
}

/// Checks the phone number verification code for Telegram Passport
#[derive(Debug, Clone)]
pub struct CheckPhoneNumberVerificationCode {
    /// Verification code
    pub code: String,
}

impl Method for CheckPhoneNumberVerificationCode {
    const TYPE: &'static str = "checkPhoneNumberVerificationCode";

    type Response = Okay;
}

/// Sends a code to verify an email address to be added to a user's Telegram Passport
#[derive(Debug, Clone)]
pub struct SendEmailAddressVerificationCode {
    /// Email address
    pub email_address: String,
}

impl Method for SendEmailAddressVerificationCode {
    const TYPE: &'static str = "sendEmailAddressVerificationCode";

    type Response = EmailAddressAuthenticationCodeInfo;
}

/// Re-sends the code to verify an email address to be added to a user's Telegram Passport
#[derive(Debug, Clone)]
pub struct ResendEmailAddressVerificationCode {}

impl Method for ResendEmailAddressVerificationCode {
    const TYPE: &'static str = "resendEmailAddressVerificationCode";

    type Response = EmailAddressAuthenticationCodeInfo;
}

/// Checks the email address verification code for Telegram Passport
#[derive(Debug, Clone)]
pub struct CheckEmailAddressVerificationCode {
    /// Verification code
    pub code: String,
}

impl Method for CheckEmailAddressVerificationCode {
    const TYPE: &'static str = "checkEmailAddressVerificationCode";

    type Response = Okay;
}

/// Returns a Telegram Passport authorization form for sharing data with a service
#[derive(Debug, Clone)]
pub struct GetPassportAuthorizationForm {
    /// User identifier of the service's bot
    pub bot_user_id: i32,
    /// Telegram Passport element types requested by the service
    pub scope: String,
    /// Service's public_key
    pub public_key: String,
    /// Authorization form nonce provided by the service
    pub nonce: String,
}

impl Method for GetPassportAuthorizationForm {
    const TYPE: &'static str = "getPassportAuthorizationForm";

    type Response = PassportAuthorizationForm;
}

/// Returns already available Telegram Passport elements suitable for completing a Telegram Passport
/// authorization form. Result can be received only once for each authorization form
#[derive(Debug, Clone)]
pub struct GetPassportAuthorizationFormAvailableElements {
    /// Authorization form identifier
    pub autorization_form_id: i32,
    /// Password of the current user
    pub password: String,
}

impl Method for GetPassportAuthorizationFormAvailableElements {
    const TYPE: &'static str = "getPassportAuthorizationFormAvailableElements";

    type Response = PassportElementsWithErrors;
}

/// Sends a Telegram Passport authorization form, effectively sharing data with the service. This
/// method must be called after getPassportAuthorizationFormAvailableElements if some previously
/// available elements need to be used
#[derive(Debug, Clone)]
pub struct SendPassportAuthorizationForm {
    /// Authorization form identifier
    pub autorization_form_id: i32,
    /// Types of Telegram Passport elements chosen by user to complete the authorization form
    pub types: Vec<PassportElementType>,
}

impl Method for SendPassportAuthorizationForm {
    const TYPE: &'static str = "sendPassportAuthorizationForm";

    type Response = Okay;
}

/// Sends phone number confirmation code. Should be called when user presses
/// "https://t.me/confirmphone?phone=*******&hash=**********" or
/// "tg://confirmphone?phone=*******&hash=**********" link
#[derive(Debug, Clone)]
pub struct SendPhoneNumberConfirmationCode {
    /// Value of the "hash" parameter from the link
    pub hash: String,
    /// Value of the "phone" parameter from the link
    pub phone_number: String,
    /// Settings for the authentication of the user's phone number
    pub settings: PhoneNumberAuthenticationSettings,
}

impl Method for SendPhoneNumberConfirmationCode {
    const TYPE: &'static str = "sendPhoneNumberConfirmationCode";

    type Response = AuthenticationCodeInfo;
}

/// Resends phone number confirmation code
#[derive(Debug, Clone)]
pub struct ResendPhoneNumberConfirmationCode {}

impl Method for ResendPhoneNumberConfirmationCode {
    const TYPE: &'static str = "resendPhoneNumberConfirmationCode";

    type Response = AuthenticationCodeInfo;
}

/// Checks phone number confirmation code
#[derive(Debug, Clone)]
pub struct CheckPhoneNumberConfirmationCode {
    /// The phone number confirmation code
    pub code: String,
}

impl Method for CheckPhoneNumberConfirmationCode {
    const TYPE: &'static str = "checkPhoneNumberConfirmationCode";

    type Response = Okay;
}

/// Informs the server about the number of pending bot updates if they haven't been processed for a
/// long time; for bots only
#[derive(Debug, Clone)]
pub struct SetBotUpdatesStatus {
    /// The number of pending updates
    pub pending_update_count: i32,
    /// The last error message
    pub error_message: String,
}

impl Method for SetBotUpdatesStatus {
    const TYPE: &'static str = "setBotUpdatesStatus";

    type Response = Okay;
}

/// Uploads a PNG image with a sticker; for bots only; returns the uploaded file
#[derive(Debug, Clone)]
pub struct UploadStickerFile {
    /// Sticker file owner
    pub user_id: i32,
    /// PNG image with the sticker; must be up to 512 KB in size and fit in 512x512 square
    pub png_sticker: InputFile,
}

impl Method for UploadStickerFile {
    const TYPE: &'static str = "uploadStickerFile";

    type Response = File;
}

/// Sets a sticker set thumbnail; for bots only. Returns the sticker set
#[derive(Debug, Clone)]
pub struct SetStickerSetThumbnail {
    /// Sticker set owner
    pub user_id: i32,
    /// Sticker set name
    pub name: String,
    /// Thumbnail to set in PNG or TGS format. Animated thumbnail must be set for animated sticker
    /// sets and only for them. You can use a zero InputFileId to delete the thumbnail
    pub thumbnail: InputFile,
}

/// Changes the position of a sticker in the set to which it belongs; for bots only. The sticker set
/// must have been created by the bot
#[derive(Debug, Clone)]
pub struct SetStickerPositionInSet {
    /// Sticker
    pub sticker: InputFile,
    /// New position of the sticker in the set, zero-based
    pub position: i32,
}

impl Method for SetStickerPositionInSet {
    const TYPE: &'static str = "setStickerPositionInSet";

    type Response = Okay;
}

/// Removes a sticker from the set to which it belongs; for bots only. The sticker set must have
/// been created by the bot
#[derive(Debug, Clone)]
pub struct RemoveStickerFromSet {
    /// Sticker
    pub sticker: InputFile,
}

impl Method for RemoveStickerFromSet {
    const TYPE: &'static str = "removeStickerFromSet";

    type Response = Okay;
}

/// Accepts Telegram terms of services
#[derive(Debug, Clone)]
pub struct AcceptTermsOfService {
    /// Terms of service identifier
    pub terms_of_service_id: String,
}

impl Method for AcceptTermsOfService {
    const TYPE: &'static str = "acceptTermsOfService";

    type Response = Okay;
}

/// Sends a custom request; for bots only
#[derive(Debug, Clone)]
pub struct SendCustomRequest {
    /// The method name
    pub method: String,
    /// JSON-serialized method parameters
    pub parameters: String,
}

impl Method for SendCustomRequest {
    const TYPE: &'static str = "sendCustomRequest";

    type Response = CustomRequestResult;
}

/// Answers a custom query; for bots only
#[derive(Debug, Clone)]
pub struct AnswerCustomQuery {
    /// Identifier of a custom query
    pub custom_query_id: i64,
    /// JSON-serialized answer to the query
    pub data: String,
}

impl Method for AnswerCustomQuery {
    const TYPE: &'static str = "answerCustomQuery";

    type Response = Okay;
}

/// Uses current user IP to found their country. Returns two-letter ISO 3166-1 alpha-2 country code.
/// Can be called before authorization
#[derive(Debug, Clone)]
pub struct GetCountryCode {}

impl Method for GetCountryCode {
    const TYPE: &'static str = "getCountryCode";

    type Response = Text;
}

/// Returns the default text for invitation messages to be used as a placeholder when the current
/// user invites friends to Telegram
#[derive(Debug, Clone)]
pub struct GetInviteText {}

impl Method for GetInviteText {
    const TYPE: &'static str = "getInviteText";

    type Response = Text;
}

/// Returns information about a tg:// deep link. Use "tg://need_update_for_some_feature" or
/// "tg:some_unsupported_feature" for testing. Returns a 404 error for unknown links. Can be called
/// before authorization
#[derive(Debug, Clone)]
pub struct GetDeepLinkInfo {
    /// The link
    pub link: String,
}

impl Method for GetDeepLinkInfo {
    const TYPE: &'static str = "getDeepLinkInfo";

    type Response = DeepLinkInfo;
}

/// Returns application config, provided by the server. Can be called before authorization
#[derive(Debug, Clone)]
pub struct GetApplicationConfig {}

/// Adds a proxy server for network requests. Can be called before authorization
#[derive(Debug, Clone)]
pub struct AddProxy {
    /// Proxy server IP address
    pub server: String,
    /// Proxy server port
    pub port: i32,
    /// True, if the proxy should be enabled
    pub enable: bool,
    /// Proxy type
    pub type_: ProxyType,
}

impl Method for AddProxy {
    const TYPE: &'static str = "addProxy";

    type Response = Proxy;
}

/// Edits an existing proxy server for network requests. Can be called before authorization
#[derive(Debug, Clone)]
pub struct EditProxy {
    /// Proxy identifier
    pub proxy_id: i32,
    /// Proxy server IP address
    pub server: String,
    /// Proxy server port
    pub port: i32,
    /// True, if the proxy should be enabled
    pub enable: bool,
    /// Proxy type
    pub type_: ProxyType,
}

impl Method for EditProxy {
    const TYPE: &'static str = "editProxy";

    type Response = Proxy;
}

/// Enables a proxy. Only one proxy can be enabled at a time. Can be called before authorization
#[derive(Debug, Clone)]
pub struct EnableProxy {
    /// Proxy identifier
    pub proxy_id: i32,
}

impl Method for EnableProxy {
    const TYPE: &'static str = "enableProxy";

    type Response = Okay;
}

/// Disables the currently enabled proxy. Can be called before authorization
#[derive(Debug, Clone)]
pub struct DisableProxy {}

impl Method for DisableProxy {
    const TYPE: &'static str = "disableProxy";

    type Response = Okay;
}

/// Removes a proxy server. Can be called before authorization
#[derive(Debug, Clone)]
pub struct RemoveProxy {
    /// Proxy identifier
    pub proxy_id: i32,
}

impl Method for RemoveProxy {
    const TYPE: &'static str = "removeProxy";

    type Response = Okay;
}

/// Returns list of proxies that are currently set up. Can be called before authorization
#[derive(Debug, Clone)]
pub struct GetProxies {}

impl Method for GetProxies {
    const TYPE: &'static str = "getProxies";

    type Response = Proxies;
}

/// Returns an HTTPS link, which can be used to add a proxy. Available only for SOCKS5 and MTProto
/// proxies. Can be called before authorization
#[derive(Debug, Clone)]
pub struct GetProxyLink {
    /// Proxy identifier
    pub proxy_id: i32,
}

impl Method for GetProxyLink {
    const TYPE: &'static str = "getProxyLink";

    type Response = Text;
}

/// Computes time needed to receive a response from a Telegram server through a proxy. Can be called
/// before authorization
#[derive(Debug, Clone)]
pub struct PingProxy {
    /// Proxy identifier. Use 0 to ping a Telegram server without a proxy
    pub proxy_id: i32,
}

/// Sets new log stream for internal logging of TDLib. This is an offline method. Can be called
/// before authorization. Can be called synchronously
#[derive(Debug, Clone)]
pub struct SetLogStream {
    /// New log stream
    pub log_stream: LogStream,
}

impl Method for SetLogStream {
    const TYPE: &'static str = "setLogStream";

    type Response = Okay;
}

/// Returns information about currently used log stream for internal logging of TDLib. This is an
/// offline method. Can be called before authorization. Can be called synchronously
#[derive(Debug, Clone)]
pub struct GetLogStream {}

impl Method for GetLogStream {
    const TYPE: &'static str = "getLogStream";

    type Response = LogStream;
}

/// Sets the verbosity level of the internal logging of TDLib. This is an offline method. Can be
/// called before authorization. Can be called synchronously
#[derive(Debug, Clone)]
pub struct SetLogVerbosityLevel {
    /// New value of the verbosity level for logging. Value 0 corresponds to fatal errors, value 1
    /// corresponds to errors, value 2 corresponds to warnings and debug warnings, value 3
    /// corresponds to informational, value 4 corresponds to debug, value 5 corresponds to verbose
    /// debug, value greater than 5 and up to 1023 can be used to enable even more logging
    pub new_verbosity_level: i32,
}

impl Method for SetLogVerbosityLevel {
    const TYPE: &'static str = "setLogVerbosityLevel";

    type Response = Okay;
}

/// Returns current verbosity level of the internal logging of TDLib. This is an offline method. Can
/// be called before authorization. Can be called synchronously
#[derive(Debug, Clone)]
pub struct GetLogVerbosityLevel {}

impl Method for GetLogVerbosityLevel {
    const TYPE: &'static str = "getLogVerbosityLevel";

    type Response = LogVerbosityLevel;
}

/// Returns list of available TDLib internal log tags, for example, ["actor", "binlog",
/// "connections", "notifications", "proxy"]. This is an offline method. Can be called before
/// authorization. Can be called synchronously
#[derive(Debug, Clone)]
pub struct GetLogTags {}

impl Method for GetLogTags {
    const TYPE: &'static str = "getLogTags";

    type Response = LogTags;
}

/// Sets the verbosity level for a specified TDLib internal log tag. This is an offline method. Can
/// be called before authorization. Can be called synchronously
#[derive(Debug, Clone)]
pub struct SetLogTagVerbosityLevel {
    /// Logging tag to change verbosity level
    pub tag: String,
    /// New verbosity level; 1-1024
    pub new_verbosity_level: i32,
}

impl Method for SetLogTagVerbosityLevel {
    const TYPE: &'static str = "setLogTagVerbosityLevel";

    type Response = Okay;
}

/// Returns current verbosity level for a specified TDLib internal log tag. This is an offline
/// method. Can be called before authorization. Can be called synchronously
#[derive(Debug, Clone)]
pub struct GetLogTagVerbosityLevel {
    /// Logging tag to change verbosity level
    pub tag: String,
}

impl Method for GetLogTagVerbosityLevel {
    const TYPE: &'static str = "getLogTagVerbosityLevel";

    type Response = LogVerbosityLevel;
}

/// Adds a message to TDLib internal log. This is an offline method. Can be called before
/// authorization. Can be called synchronously
#[derive(Debug, Clone)]
pub struct AddLogMessage {
    /// The minimum verbosity level needed for the message to be logged, 0-1023
    pub verbosity_level: i32,
    /// Text of a message to log
    pub text: String,
}

impl Method for AddLogMessage {
    const TYPE: &'static str = "addLogMessage";

    type Response = Okay;
}

/// Does nothing; for testing only. This is an offline method. Can be called before authorization
#[derive(Debug, Clone)]
pub struct TestCallEmpty {}

impl Method for TestCallEmpty {
    const TYPE: &'static str = "testCallEmpty";

    type Response = Okay;
}

/// Returns the received string; for testing only. This is an offline method. Can be called before
/// authorization
#[derive(Debug, Clone)]
pub struct TestCallString {
    /// String to return
    pub x: String,
}

impl Method for TestCallString {
    const TYPE: &'static str = "testCallString";

    type Response = TestString;
}

/// Returns the received bytes; for testing only. This is an offline method. Can be called before
/// authorization
#[derive(Debug, Clone)]
pub struct TestCallBytes {
    /// Bytes to return
    pub x: String,
}

impl Method for TestCallBytes {
    const TYPE: &'static str = "testCallBytes";

    type Response = TestBytes;
}

/// Returns the received vector of numbers; for testing only. This is an offline method. Can be
/// called before authorization
#[derive(Debug, Clone)]
pub struct TestCallVectorInt {
    /// Vector of numbers to return
    pub x: Vec<i32>,
}

impl Method for TestCallVectorInt {
    const TYPE: &'static str = "testCallVectorInt";

    type Response = TestVectorInt;
}

/// Returns the received vector of objects containing a number; for testing only. This is an offline
/// method. Can be called before authorization
#[derive(Debug, Clone)]
pub struct TestCallVectorIntObject {
    /// Vector of objects to return
    pub x: Vec<TestInt>,
}

impl Method for TestCallVectorIntObject {
    const TYPE: &'static str = "testCallVectorIntObject";

    type Response = TestVectorIntObject;
}

/// Returns the received vector of strings; for testing only. This is an offline method. Can be
/// called before authorization
#[derive(Debug, Clone)]
pub struct TestCallVectorString {
    /// Vector of strings to return
    pub x: Vec<String>,
}

impl Method for TestCallVectorString {
    const TYPE: &'static str = "testCallVectorString";

    type Response = TestVectorString;
}

/// Returns the received vector of objects containing a string; for testing only. This is an offline
/// method. Can be called before authorization
#[derive(Debug, Clone)]
pub struct TestCallVectorStringObject {
    /// Vector of objects to return
    pub x: Vec<TestString>,
}

impl Method for TestCallVectorStringObject {
    const TYPE: &'static str = "testCallVectorStringObject";

    type Response = TestVectorStringObject;
}

/// Returns the squared received number; for testing only. This is an offline method. Can be called
/// before authorization
#[derive(Debug, Clone)]
pub struct TestSquareInt {
    /// Number to square
    pub x: i32,
}

impl Method for TestSquareInt {
    const TYPE: &'static str = "testSquareInt";

    type Response = TestInt;
}

/// Sends a simple network request to the Telegram servers; for testing only. Can be called before
/// authorization
#[derive(Debug, Clone)]
pub struct TestNetwork {}

impl Method for TestNetwork {
    const TYPE: &'static str = "testNetwork";

    type Response = Okay;
}

/// Forces an updates.getDifference call to the Telegram servers; for testing only
#[derive(Debug, Clone)]
pub struct TestGetDifference {}

impl Method for TestGetDifference {
    const TYPE: &'static str = "testGetDifference";

    type Response = Okay;
}

/// Does nothing and ensures that the Update object is used; for testing only. This is an offline
/// method. Can be called before authorization
#[derive(Debug, Clone)]
pub struct TestUseUpdate {}

/// Returns the specified error and ensures that the Error object is used; for testing only. This is
/// an offline method. Can be called before authorization. Can be called synchronously
#[derive(Debug, Clone)]
pub struct TestReturnError {
    /// The error to be returned
    pub error: Error,
}

impl Method for TestReturnError {
    const TYPE: &'static str = "testReturnError";

    type Response = Error;
}

} // verus!
