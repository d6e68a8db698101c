//! The data of the remote interface: one type for each object, one enum for
//! each family of objects.

use vstd::prelude::*;

verus! {

/// An object of this type can be returned on every function call, in case of an error
#[derive(Debug, Clone)]
pub struct Error {
    /// Error code; subject to future changes. If the error code is 406, the error message must not
    /// be processed in any way and must not be displayed to the user
    pub code: i32,
    /// Error message; subject to future changes
    pub message: String,
}

/// An object of this type is returned on a successful function call for certain functions
#[derive(Debug, Clone)]
pub struct Okay {}

/// Contains parameters for TDLib initialization
#[derive(Debug, Clone)]
pub struct TdlibParameters {
    /// If set to true, the Telegram test environment will be used instead of the production
    /// environment
    pub use_test_dc: bool,
    /// The path to the directory for the persistent database; if empty, the current working
    /// directory will be used
    pub database_directory: String,
    /// The path to the directory for storing files; if empty, database_directory will be used
    pub files_directory: String,
    /// If set to true, information about downloaded and uploaded files will be saved between
    /// application restarts
    pub use_file_database: bool,
    /// If set to true, the library will maintain a cache of users, basic groups, supergroups,
    /// channels and secret chats. Implies use_file_database
    pub use_chat_info_database: bool,
    /// If set to true, the library will maintain a cache of chats and messages. Implies
    /// use_chat_info_database
    pub use_message_database: bool,
    /// If set to true, support for secret chats will be enabled
    pub use_secret_chats: bool,
    /// Application identifier for Telegram API access, which can be obtained at
    /// https://my.telegram.org
    pub api_id: i32,
    /// Application identifier hash for Telegram API access, which can be obtained at
    /// https://my.telegram.org
    pub api_hash: String,
    /// IETF language tag of the user's operating system language; must be non-empty
    pub system_language_code: String,
    /// Model of the device the application is being run on; must be non-empty
    pub device_model: String,
    /// Version of the operating system the application is being run on; must be non-empty
    pub system_version: String,
    /// Application version; must be non-empty
    pub application_version: String,
    /// If set to true, old files will automatically be deleted
    pub enable_storage_optimizer: bool,
    /// If set to true, original file names will be ignored. Otherwise, downloaded files will be
    /// saved under names as close as possible to the original name
    pub ignore_file_names: bool,
}

/// An authentication code is delivered via a private Telegram message, which can be viewed in
/// another client
#[derive(Debug, Clone)]
pub struct AuthenticationCodeTypeTelegramMessage {
    /// Length of the code
    pub length: i32,
}

/// An authentication code is delivered via an SMS message to the specified phone number
#[derive(Debug, Clone)]
pub struct AuthenticationCodeTypeSms {
    /// Length of the code
    pub length: i32,
}

/// An authentication code is delivered via a phone call to the specified phone number
#[derive(Debug, Clone)]
pub struct AuthenticationCodeTypeCall {
    /// Length of the code
    pub length: i32,
}

/// An authentication code is delivered by an immediately cancelled call to the specified phone
/// number. The number from which the call was made is the code
#[derive(Debug, Clone)]
pub struct AuthenticationCodeTypeFlashCall {
    /// Pattern of the phone number from which the call will be made
    pub pattern: String,
}

/// Information about the authentication code that was sent
#[derive(Debug, Clone)]
pub struct AuthenticationCodeInfo {
    /// A phone number that is being authenticated
    pub phone_number: String,
    /// Describes the way the code was sent to the user
    pub type_: AuthenticationCodeType,
    /// Describes the way the next code will be sent to the user; may be null
    pub next_type: Option<AuthenticationCodeType>,
    /// Timeout before the code should be re-sent, in seconds
    pub timeout: i32,
}

/// Information about the email address authentication code that was sent
#[derive(Debug, Clone)]
pub struct EmailAddressAuthenticationCodeInfo {
    /// Pattern of the email address to which an authentication code was sent
    pub email_address_pattern: String,
    /// Length of the code; 0 if unknown
    pub length: i32,
}

/// Represents a part of the text that needs to be formatted in some unusual way
#[derive(Debug, Clone)]
pub struct TextEntity {
    /// Offset of the entity in UTF-16 code units
    pub offset: i32,
    /// Length of the entity, in UTF-16 code units
    pub length: i32,
    /// Type of the entity
    pub type_: TextEntityType,
}

/// Contains a list of text entities
#[derive(Debug, Clone)]
pub struct TextEntities {
    /// List of text entities
    pub entities: Vec<TextEntity>,
}

/// A text with some entities
#[derive(Debug, Clone)]
pub struct FormattedText {
    /// The text
    pub text: String,
    /// Entities contained in the text. Entities can be nested, but must not mutually intersect with
    /// each other.
    /// Pre, Code and PreCode entities can't contain other entities. Bold, Italic, Underline and
    /// Strikethrough entities can contain and to be contained in all other entities. All other
    /// entities can't contain each other
    pub entities: Vec<TextEntity>,
}

/// Contains Telegram terms of service
#[derive(Debug, Clone)]
pub struct TermsOfService {
    /// Text of the terms of service
    pub text: FormattedText,
    /// The minimum age of a user to be able to accept the terms; 0 if any
    pub min_user_age: i32,
    /// True, if a blocking popup with terms of service must be shown to the user
    pub show_popup: bool,
}

/// TDLib needs TdlibParameters for initialization
#[derive(Debug, Clone)]
pub struct AuthorizationStateWaitTdlibParameters {}

/// TDLib needs an encryption key to decrypt the local database
#[derive(Debug, Clone)]
pub struct AuthorizationStateWaitEncryptionKey {
    /// True, if the database is currently encrypted
    pub is_encrypted: bool,
}

/// TDLib needs the user's phone number to authorize. Call `setAuthenticationPhoneNumber` to provide
/// the phone number, or use `requestQrCodeAuthentication`, or `checkAuthenticationBotToken` for
/// other authentication options
#[derive(Debug, Clone)]
pub struct AuthorizationStateWaitPhoneNumber {}

/// TDLib needs the user's authentication code to authorize
#[derive(Debug, Clone)]
pub struct AuthorizationStateWaitCode {
    /// Information about the authorization code that was sent
    pub code_info: AuthenticationCodeInfo,
}

/// The user needs to confirm authorization on another logged in device by scanning a QR code with
/// the provided link
#[derive(Debug, Clone)]
pub struct AuthorizationStateWaitOtherDeviceConfirmation {
    /// A tg:// URL for the QR code. The link will be updated frequently
    pub link: String,
}

/// The user is unregistered and need to accept terms of service and enter their first name and last
/// name to finish registration
#[derive(Debug, Clone)]
pub struct AuthorizationStateWaitRegistration {
    /// Telegram terms of service
    pub terms_of_service: TermsOfService,
}

/// The user has been authorized, but needs to enter a password to start using the application
#[derive(Debug, Clone)]
pub struct AuthorizationStateWaitPassword {
    /// Hint for the password; may be empty
    pub password_hint: String,
    /// True, if a recovery email address has been set up
    pub has_recovery_email_address: bool,
    /// Pattern of the email address to which the recovery email was sent; empty until a recovery
    /// email has been sent
    pub recovery_email_address_pattern: String,
}

/// The user has been successfully authorized. TDLib is now ready to answer queries
#[derive(Debug, Clone)]
pub struct AuthorizationStateReady {}

/// The user is currently logging out
#[derive(Debug, Clone)]
pub struct AuthorizationStateLoggingOut {}

/// TDLib is closing, all subsequent queries will be answered with the error 500. Note that closing
/// TDLib can take a while. All resources will be freed only after authorizationStateClosed has been
/// received
#[derive(Debug, Clone)]
pub struct AuthorizationStateClosing {}

/// TDLib client is in its final state. All databases are closed and all resources are released. No
/// other updates will be received after this. All queries will be responded to
/// with error code 500. To continue working, one should create a new instance of the TDLib client
#[derive(Debug, Clone)]
pub struct AuthorizationStateClosed {}

/// Represents the current state of 2-step verification
#[derive(Debug, Clone)]
pub struct PasswordState {
    /// True, if a 2-step verification password is set
    pub has_password: bool,
    /// Hint for the password; may be empty
    pub password_hint: String,
    /// True, if a recovery email is set
    pub has_recovery_email_address: bool,
    /// True, if some Telegram Passport elements were saved
    pub has_passport_data: bool,
    /// Information about the recovery email address to which the confirmation email was sent; may
    /// be null
    pub recovery_email_address_code_info: Option<EmailAddressAuthenticationCodeInfo>,
}

/// Contains information about the current recovery email address
#[derive(Debug, Clone)]
pub struct RecoveryEmailAddress {
    /// Recovery email address
    pub recovery_email_address: String,
}

/// Returns information about the availability of a temporary password, which can be used for
/// payments
#[derive(Debug, Clone)]
pub struct TemporaryPasswordState {
    /// True, if a temporary password is available
    pub has_password: bool,
    /// Time left before the temporary password expires, in seconds
    pub valid_for: i32,
}

/// Represents a local file
#[derive(Debug, Clone)]
pub struct LocalFile {
    /// Local path to the locally available file part; may be empty
    pub path: String,
    /// True, if it is possible to try to download or generate the file
    pub can_be_downloaded: bool,
    /// True, if the file can be deleted
    pub can_be_deleted: bool,
    /// True, if the file is currently being downloaded (or a local copy is being generated by some
    /// other means)
    pub is_downloading_active: bool,
    /// True, if the local copy is fully available
    pub is_downloading_completed: bool,
    /// Download will be started from this offset. downloaded_prefix_size is calculated from this
    /// offset
    pub download_offset: i32,
    /// If is_downloading_completed is false, then only some prefix of the file starting from
    /// download_offset is ready to be read. downloaded_prefix_size is the size of that prefix
    pub downloaded_prefix_size: i32,
    /// Total downloaded file bytes. Should be used only for calculating download progress. The
    /// actual file size may be bigger, and some parts of it may contain garbage
    pub downloaded_size: i32,
}

/// Represents a remote file
#[derive(Debug, Clone)]
pub struct RemoteFile {
    /// Remote file identifier; may be empty. Can be used by the current user across application
    /// restarts or even from other devices. Uniquely identifies a file, but a file can have a lot
    /// of different valid identifiers.
    /// If the ID starts with "http://" or "https://", it represents the HTTP URL of the file. TDLib
    /// is currently unable to download files if only their URL is known.
    /// If downloadFile is called on such a file or if it is sent to a secret chat, TDLib starts a
    /// file generation process by sending updateFileGenerationStart to the client with the HTTP URL
    /// in the original_path and "#url#" as the conversion string. Clients should generate the file
    /// by downloading it to the specified location
    pub id: String,
    /// Unique file identifier; may be empty if unknown. The unique file identifier which is the
    /// same for the same file even for different users and is persistent over time
    pub unique_id: String,
    /// True, if the file is currently being uploaded (or a remote copy is being generated by some
    /// other means)
    pub is_uploading_active: bool,
    /// True, if a remote copy is fully available
    pub is_uploading_completed: bool,
    /// Size of the remote available part of the file; 0 if unknown
    pub uploaded_size: i32,
}

/// Represents a file
#[derive(Debug, Clone)]
pub struct File {
    /// Unique file identifier
    pub id: i32,
    /// File size; 0 if unknown
    pub size: i32,
    /// Expected file size in case the exact file size is unknown, but an approximate size is known.
    /// Can be used to show download/upload progress
    pub expected_size: i32,
    /// Information about the local copy of the file
    pub local: LocalFile,
    /// Information about the remote copy of the file
    pub remote: RemoteFile,
}

/// A file defined by its unique ID
#[derive(Debug, Clone)]
pub struct InputFileId {
    /// Unique file identifier
    pub id: i32,
}

/// A file defined by its remote ID. The remote ID is guaranteed to be usable only if the
/// corresponding file is still accessible to the user and known to TDLib.
/// For example, if the file is from a message, then the message must be not deleted and accessible
/// to the user. If the file database is disabled, then the corresponding object with the file must
/// be preloaded by the client
#[derive(Debug, Clone)]
pub struct InputFileRemote {
    /// Remote file identifier
    pub id: String,
}

/// A file defined by a local path
#[derive(Debug, Clone)]
pub struct InputFileLocal {
    /// Local path to the file
    pub path: String,
}

/// A file generated by the client
#[derive(Debug, Clone)]
pub struct InputFileGenerated {
    /// Local path to a file from which the file is generated; may be empty if there is no such file
    pub original_path: String,
    /// String specifying the conversion applied to the original file; should be persistent across
    /// application restarts. Conversions beginning with '#' are reserved for internal TDLib usage
    pub conversion: String,
    /// Expected size of the generated file; 0 if unknown
    pub expected_size: i32,
}

/// Photo description
#[derive(Debug, Clone)]
pub struct PhotoSize {
    /// Thumbnail type (see https://core.telegram.org/constructor/photoSize)
    pub type_: String,
    /// Information about the photo file
    pub photo: File,
    /// Photo width
    pub width: i32,
    /// Photo height
    pub height: i32,
}

/// Thumbnail image of a very poor quality and low resolution
#[derive(Debug, Clone)]
pub struct Minithumbnail {
    /// Thumbnail width, usually doesn't exceed 40
    pub width: i32,
    /// Thumbnail height, usually doesn't exceed 40
    pub height: i32,
    /// The thumbnail in JPEG format
    pub data: String,
}

/// A mask should be placed relatively to the forehead
#[derive(Debug, Clone)]
pub struct MaskPointForehead {}

/// A mask should be placed relatively to the eyes
#[derive(Debug, Clone)]
pub struct MaskPointEyes {}

/// A mask should be placed relatively to the mouth
#[derive(Debug, Clone)]
pub struct MaskPointMouth {}

/// A mask should be placed relatively to the chin
#[derive(Debug, Clone)]
pub struct MaskPointChin {}

/// Describes one answer option of a poll
#[derive(Debug, Clone)]
pub struct PollOption {
    /// Option text, 1-100 characters
    pub text: String,
    /// Number of voters for this option, available only for closed or voted polls
    pub voter_count: i32,
    /// The percentage of votes for this option, 0-100
    pub vote_percentage: i32,
    /// True, if the option was chosen by the user
    pub is_chosen: bool,
    /// True, if the option is being chosen by a pending setPollAnswer request
    pub is_being_chosen: bool,
}

/// A regular poll
#[derive(Debug, Clone)]
pub struct PollTypeRegular {
    /// True, if multiple answer options can be chosen simultaneously
    pub allow_multiple_answers: bool,
}

/// A poll in quiz mode, which has exactly one correct answer option and can be answered only once
#[derive(Debug, Clone)]
pub struct PollTypeQuiz {
    /// 0-based identifier of the correct answer option; -1 for a yet unanswered poll
    pub correct_option_id: i32,
    /// Text that is shown when the user chooses an incorrect answer or taps on the lamp icon, 0-200
    /// characters with at most 2 line feeds; empty for a yet unanswered poll
    pub explanation: FormattedText,
}

/// Describes an animation file. The animation must be encoded in GIF or MPEG4 format
#[derive(Debug, Clone)]
pub struct Animation {
    /// Duration of the animation, in seconds; as defined by the sender
    pub duration: i32,
    /// Width of the animation
    pub width: i32,
    /// Height of the animation
    pub height: i32,
    /// Original name of the file; as defined by the sender
    pub file_name: String,
    /// MIME type of the file, usually "image/gif" or "video/mp4"
    pub mime_type: String,
    /// Animation minithumbnail; may be null
    pub minithumbnail: Option<Minithumbnail>,
    /// Animation thumbnail; may be null
    pub thumbnail: Option<PhotoSize>,
    /// File containing the animation
    pub animation: File,
}

/// Describes an audio file. Audio is usually in MP3 or M4A format
#[derive(Debug, Clone)]
pub struct Audio {
    /// Duration of the audio, in seconds; as defined by the sender
    pub duration: i32,
    /// Title of the audio; as defined by the sender
    pub title: String,
    /// Performer of the audio; as defined by the sender
    pub performer: String,
    /// Original name of the file; as defined by the sender
    pub file_name: String,
    /// The MIME type of the file; as defined by the sender
    pub mime_type: String,
    /// The minithumbnail of the album cover; may be null
    pub album_cover_minithumbnail: Option<Minithumbnail>,
    /// The thumbnail of the album cover; as defined by the sender. The full size thumbnail should
    /// be extracted from the downloaded file; may be null
    pub album_cover_thumbnail: Option<PhotoSize>,
    /// File containing the audio
    pub audio: File,
}

/// Describes a document of any type
#[derive(Debug, Clone)]
pub struct Document {
    /// Original name of the file; as defined by the sender
    pub file_name: String,
    /// MIME type of the file; as defined by the sender
    pub mime_type: String,
    /// Document minithumbnail; may be null
    pub minithumbnail: Option<Minithumbnail>,
    /// Document thumbnail in JPEG or PNG format (PNG will be used only for background patterns); as
    /// defined by the sender; may be null
    pub thumbnail: Option<PhotoSize>,
    /// File containing the document
    pub document: File,
}

/// Describes a photo
#[derive(Debug, Clone)]
pub struct Photo {
    /// True, if stickers were added to the photo
    pub has_stickers: bool,
    /// Photo minithumbnail; may be null
    pub minithumbnail: Option<Minithumbnail>,
    /// Available variants of the photo, in different sizes
    pub sizes: Vec<PhotoSize>,
}

/// Describes a video file
#[derive(Debug, Clone)]
pub struct Video {
    /// Duration of the video, in seconds; as defined by the sender
    pub duration: i32,
    /// Video width; as defined by the sender
    pub width: i32,
    /// Video height; as defined by the sender
    pub height: i32,
    /// Original name of the file; as defined by the sender
    pub file_name: String,
    /// MIME type of the file; as defined by the sender
    pub mime_type: String,
    /// True, if stickers were added to the video
    pub has_stickers: bool,
    /// True, if the video should be tried to be streamed
    pub supports_streaming: bool,
    /// Video minithumbnail; may be null
    pub minithumbnail: Option<Minithumbnail>,
    /// Video thumbnail; as defined by the sender; may be null
    pub thumbnail: Option<PhotoSize>,
    /// File containing the video
    pub video: File,
}

/// Describes a video note. The video must be equal in width and height, cropped to a circle, and
/// stored in MPEG4 format
#[derive(Debug, Clone)]
pub struct VideoNote {
    /// Duration of the video, in seconds; as defined by the sender
    pub duration: i32,
    /// Video width and height; as defined by the sender
    pub length: i32,
    /// Video minithumbnail; may be null
    pub minithumbnail: Option<Minithumbnail>,
    /// Video thumbnail; as defined by the sender; may be null
    pub thumbnail: Option<PhotoSize>,
    /// File containing the video
    pub video: File,
}

/// Describes a voice note. The voice note must be encoded with the Opus codec, and stored inside an
/// OGG container. Voice notes can have only a single audio channel
#[derive(Debug, Clone)]
pub struct VoiceNote {
    /// Duration of the voice note, in seconds; as defined by the sender
    pub duration: i32,
    /// A waveform representation of the voice note in 5-bit format
    pub waveform: String,
    /// MIME type of the file; as defined by the sender
    pub mime_type: String,
    /// File containing the voice note
    pub voice: File,
}

/// Describes a user contact
#[derive(Debug, Clone)]
pub struct Contact {
    /// Phone number of the user
    pub phone_number: String,
    /// First name of the user; 1-255 characters in length
    pub first_name: String,
    /// Last name of the user
    pub last_name: String,
    /// Additional data about the user in a form of vCard; 0-2048 bytes in length
    pub vcard: String,
    /// Identifier of the user, if known; otherwise 0
    pub user_id: i32,
}

/// Describes a game
#[derive(Debug, Clone)]
pub struct Game {
    /// Game ID
    pub id: i64,
    /// Game short name. To share a game use the URL
    /// https://t.me/{bot_username}?game={game_short_name}
    pub short_name: String,
    /// Game title
    pub title: String,
    /// Game text, usually containing scoreboards for a game
    pub text: FormattedText,
    /// Game description
    pub description: String,
    /// Game photo
    pub photo: Photo,
    /// Game animation; may be null
    pub animation: Option<Animation>,
}

/// Describes a poll
#[derive(Debug, Clone)]
pub struct Poll {
    /// Unique poll identifier
    pub id: i64,
    /// Poll question, 1-255 characters
    pub question: String,
    /// List of poll answer options
    pub options: Vec<PollOption>,
    /// Total number of voters, participating in the poll
    pub total_voter_count: i32,
    /// User identifiers of recent voters, if the poll is non-anonymous
    pub recent_voter_user_ids: Vec<i32>,
    /// True, if the poll is anonymous
    pub is_anonymous: bool,
    /// Type of the poll
    pub type_: PollType,
    /// Amount of time the poll will be active after creation, in seconds
    pub open_period: i32,
    /// Point in time (Unix timestamp) when the poll will be automatically closed
    pub close_date: i32,
    /// True, if the poll is closed
    pub is_closed: bool,
}

/// Describes a user profile photo
#[derive(Debug, Clone)]
pub struct ProfilePhoto {
    /// Photo identifier; 0 for an empty photo. Can be used to find a photo in a list of
    /// userProfilePhotos
    pub id: i64,
    /// A small (160x160) user profile photo. The file can be downloaded only before the photo is
    /// changed
    pub small: File,
    /// A big (640x640) user profile photo. The file can be downloaded only before the photo is
    /// changed
    pub big: File,
}

/// Describes the photo of a chat
#[derive(Debug, Clone)]
pub struct ChatPhoto {
    /// A small (160x160) chat photo. The file can be downloaded only before the photo is changed
    pub small: File,
    /// A big (640x640) chat photo. The file can be downloaded only before the photo is changed
    pub big: File,
}

/// A regular user
#[derive(Debug, Clone)]
pub struct UserTypeRegular {}

/// A deleted user or deleted bot. No information on the user besides the user identifier is
/// available. It is not possible to perform any active actions on this type of user
#[derive(Debug, Clone)]
pub struct UserTypeDeleted {}

/// A bot (see https://core.telegram.org/bots)
#[derive(Debug, Clone)]
pub struct UserTypeBot {
    /// True, if the bot can be invited to basic group and supergroup chats
    pub can_join_groups: bool,
    /// True, if the bot can read all messages in basic group or supergroup chats and not just those
    /// addressed to the bot. In private and channel chats a bot can always read all messages
    pub can_read_all_group_messages: bool,
    /// True, if the bot supports inline queries
    pub is_inline: bool,
    /// Placeholder for inline queries (displayed on the client input field)
    pub inline_query_placeholder: String,
    /// True, if the location of the user should be sent with every inline query to this bot
    pub need_location: bool,
}

/// No information on the user besides the user identifier is available, yet this user has not been
/// deleted. This object is extremely rare and must be handled like a deleted user. It is not
/// possible to perform any actions on users of this type
#[derive(Debug, Clone)]
pub struct UserTypeUnknown {}

/// Represents a command supported by a bot
#[derive(Debug, Clone)]
pub struct BotCommand {
    /// Text of the bot command
    pub command: String,
    /// Description of the bot command
    pub description: String,
}

/// Provides information about a bot and its supported commands
#[derive(Debug, Clone)]
pub struct BotInfo {
    /// Long description shown on the user info page
    pub description: String,
    /// A list of commands supported by the bot
    pub commands: Vec<BotCommand>,
}

/// Represents a user
#[derive(Debug, Clone)]
pub struct User {
    /// User identifier
    pub id: i32,
    /// First name of the user
    pub first_name: String,
    /// Last name of the user
    pub last_name: String,
    /// Username of the user
    pub username: String,
    /// Phone number of the user
    pub phone_number: String,
    /// Current online status of the user
    pub status: UserStatus,
    /// Profile photo of the user; may be null
    pub profile_photo: Option<ProfilePhoto>,
    /// The user is a contact of the current user
    pub is_contact: bool,
    /// The user is a contact of the current user and the current user is a contact of the user
    pub is_mutual_contact: bool,
    /// True, if the user is verified
    pub is_verified: bool,
    /// True, if the user is Telegram support account
    pub is_support: bool,
    /// If non-empty, it contains a human-readable description of the reason why access to this user
    /// must be restricted
    pub restriction_reason: String,
    /// True, if many users reported this user as a scam
    pub is_scam: bool,
    /// If false, the user is inaccessible, and the only information known about the user is inside
    /// this class. It can't be passed to any method except GetUser
    pub have_access: bool,
    /// Type of the user
    pub type_: UserType,
    /// IETF language tag of the user's language; only available to bots
    pub language_code: Option<String>,
}

/// Contains full information about a user (except the full list of profile photos)
#[derive(Debug, Clone)]
pub struct UserFullInfo {
    /// True, if the user is blacklisted by the current user
    pub is_blocked: bool,
    /// True, if the user can be called
    pub can_be_called: bool,
    /// True, if the user can't be called due to their privacy settings
    pub has_private_calls: bool,
    /// True, if the current user needs to explicitly allow to share their phone number with the
    /// user when the method addContact is used
    pub need_phone_number_privacy_exception: bool,
    /// A short user bio
    pub bio: String,
    /// For bots, the text that is included with the link when users share the bot
    pub share_text: String,
    /// Number of group chats where both the other user and the current user are a member; 0 for the
    /// current user
    pub group_in_common_count: i32,
    /// If the user is a bot, information about the bot; may be null
    pub bot_info: Option<BotInfo>,
}

/// Contains full information about a user profile photo
#[derive(Debug, Clone)]
pub struct UserProfilePhoto {
    /// Unique user profile photo identifier
    pub id: i64,
    /// Point in time (Unix timestamp) when the photo has been added
    pub added_date: i32,
    /// Available variants of the user photo, in different sizes
    pub sizes: Vec<PhotoSize>,
}

/// Contains part of the list of user photos
#[derive(Debug, Clone)]
pub struct UserProfilePhotos {
    /// Total number of user profile photos
    pub total_count: i32,
    /// A list of photos
    pub photos: Vec<UserProfilePhoto>,
}

/// Represents a list of users
#[derive(Debug, Clone)]
pub struct Users {
    /// Approximate total count of users found
    pub total_count: i32,
    /// A list of user identifiers
    pub user_ids: Vec<i32>,
}

/// Contains information about a chat administrator
#[derive(Debug, Clone)]
pub struct ChatAdministrator {
    /// User identifier of the administrator
    pub user_id: i32,
    /// Custom title of the administrator
    pub custom_title: String,
    /// True, if the user is the owner of the chat
    pub is_owner: bool,
}

/// Represents a list of chat administrators
#[derive(Debug, Clone)]
pub struct ChatAdministrators {
    /// A list of chat administrators
    pub administrators: Vec<ChatAdministrator>,
}

/// Describes actions that a user is allowed to take in a chat
#[derive(Debug, Clone)]
pub struct ChatPermissions {
    /// True, if the user can send text messages, contacts, locations, and venues
    pub can_send_messages: bool,
    /// True, if the user can send audio files, documents, photos, videos, video notes, and voice
    /// notes. Implies can_send_messages permissions
    pub can_send_media_messages: bool,
    /// True, if the user can send polls. Implies can_send_messages permissions
    pub can_send_polls: bool,
    /// True, if the user can send animations, games, and stickers and use inline bots. Implies
    /// can_send_messages permissions
    pub can_send_other_messages: bool,
    /// True, if the user may add a web page preview to their messages. Implies can_send_messages
    /// permissions
    pub can_add_web_page_previews: bool,
    /// True, if the user can change the chat title, photo, and other settings
    pub can_change_info: bool,
    /// True, if the user can invite new users to the chat
    pub can_invite_users: bool,
    /// True, if the user can pin messages
    pub can_pin_messages: bool,
}

/// The user is the owner of a chat and has all the administrator privileges
#[derive(Debug, Clone)]
pub struct ChatMemberStatusCreator {
    /// A custom title of the owner; 0-16 characters without emojis; applicable to supergroups only
    pub custom_title: String,
    /// True, if the user is a member of the chat
    pub is_member: bool,
}

/// The user is a member of a chat and has some additional privileges. In basic groups,
/// administrators can edit and delete messages sent by others, add new members, and ban
/// unprivileged members. In supergroups and channels, there are more detailed options for
/// administrator privileges
#[derive(Debug, Clone)]
pub struct ChatMemberStatusAdministrator {
    /// A custom title of the administrator; 0-16 characters without emojis; applicable to
    /// supergroups only
    pub custom_title: String,
    /// True, if the current user can edit the administrator privileges for the called user
    pub can_be_edited: bool,
    /// True, if the administrator can change the chat title, photo, and other settings
    pub can_change_info: bool,
    /// True, if the administrator can create channel posts; applicable to channels only
    pub can_post_messages: bool,
    /// True, if the administrator can edit messages of other users and pin messages; applicable to
    /// channels only
    pub can_edit_messages: bool,
    /// True, if the administrator can delete messages of other users
    pub can_delete_messages: bool,
    /// True, if the administrator can invite new users to the chat
    pub can_invite_users: bool,
    /// True, if the administrator can restrict, ban, or unban chat members
    pub can_restrict_members: bool,
    /// True, if the administrator can pin messages; applicable to groups only
    pub can_pin_messages: bool,
    /// True, if the administrator can add new administrators with a subset of their own privileges
    /// or demote administrators that were directly or indirectly promoted by them
    pub can_promote_members: bool,
}

/// The user is a member of a chat, without any additional privileges or restrictions
#[derive(Debug, Clone)]
pub struct ChatMemberStatusMember {}

/// The user is under certain restrictions in the chat. Not supported in basic groups and channels
#[derive(Debug, Clone)]
pub struct ChatMemberStatusRestricted {
    /// True, if the user is a member of the chat
    pub is_member: bool,
    /// Point in time (Unix timestamp) when restrictions will be lifted from the user; 0 if never.
    /// If the user is restricted for more than 366 days or for less than 30 seconds from the
    /// current time, the user is considered to be restricted forever
    pub restricted_until_date: i32,
    /// User permissions in the chat
    pub permissions: ChatPermissions,
}

/// The user is not a chat member
#[derive(Debug, Clone)]
pub struct ChatMemberStatusLeft {}

/// The user was banned (and hence is not a member of the chat). Implies the user can't return to
/// the chat or view messages
#[derive(Debug, Clone)]
pub struct ChatMemberStatusBanned {
    /// Point in time (Unix timestamp) when the user will be unbanned; 0 if never. If the user is
    /// banned for more than 366 days or for less than 30 seconds from the current time, the user is
    /// considered to be banned forever
    pub banned_until_date: i32,
}

/// A user with information about joining/leaving a chat
#[derive(Debug, Clone)]
pub struct ChatMember {
    /// User identifier of the chat member
    pub user_id: i32,
    /// Identifier of a user that invited/promoted/banned this member in the chat; 0 if unknown
    pub inviter_user_id: i32,
    /// Point in time (Unix timestamp) when the user joined a chat
    pub joined_chat_date: i32,
    /// Status of the member in the chat
    pub status: ChatMemberStatus,
    /// If the user is a bot, information about the bot; may be null. Can be null even for a bot if
    /// the bot is not a chat member
    pub bot_info: Option<BotInfo>,
}

/// Contains a list of chat members
#[derive(Debug, Clone)]
pub struct ChatMembers {
    /// Approximate total count of chat members found
    pub total_count: i32,
    /// A list of chat members
    pub members: Vec<ChatMember>,
}

/// Returns contacts of the user
#[derive(Debug, Clone)]
pub struct ChatMembersFilterContacts {}

/// Returns the owner and administrators
#[derive(Debug, Clone)]
pub struct ChatMembersFilterAdministrators {}

/// Returns all chat members, including restricted chat members
#[derive(Debug, Clone)]
pub struct ChatMembersFilterMembers {}

/// Returns users under certain restrictions in the chat; can be used only by administrators in a
/// supergroup
#[derive(Debug, Clone)]
pub struct ChatMembersFilterRestricted {}

/// Returns users banned from the chat; can be used only by administrators in a supergroup or in a
/// channel
#[derive(Debug, Clone)]
pub struct ChatMembersFilterBanned {}

/// Returns bot members of the chat
#[derive(Debug, Clone)]
pub struct ChatMembersFilterBots {}

/// Returns recently active users in reverse chronological order
#[derive(Debug, Clone)]
pub struct SupergroupMembersFilterRecent {}

/// Returns contacts of the user, which are members of the supergroup or channel
#[derive(Debug, Clone)]
pub struct SupergroupMembersFilterContacts {
    /// Query to search for
    pub query: String,
}

/// Returns the owner and administrators
#[derive(Debug, Clone)]
pub struct SupergroupMembersFilterAdministrators {}

/// Used to search for supergroup or channel members via a (string) query
#[derive(Debug, Clone)]
pub struct SupergroupMembersFilterSearch {
    /// Query to search for
    pub query: String,
}

/// Returns restricted supergroup members; can be used only by administrators
#[derive(Debug, Clone)]
pub struct SupergroupMembersFilterRestricted {
    /// Query to search for
    pub query: String,
}

/// Returns users banned from the supergroup or channel; can be used only by administrators
#[derive(Debug, Clone)]
pub struct SupergroupMembersFilterBanned {
    /// Query to search for
    pub query: String,
}

/// Returns bot members of the supergroup or channel
#[derive(Debug, Clone)]
pub struct SupergroupMembersFilterBots {}

/// Represents a basic group of 0-200 users (must be upgraded to a supergroup to accommodate more
/// than 200 users)
#[derive(Debug, Clone)]
pub struct BasicGroup {
    /// Group identifier
    pub id: i32,
    /// Number of members in the group
    pub member_count: i32,
    /// Status of the current user in the group
    pub status: ChatMemberStatus,
    /// True, if the group is active
    pub is_active: bool,
    /// Identifier of the supergroup to which this group was upgraded; 0 if none
    pub upgraded_to_supergroup_id: i32,
}

/// Contains full information about a basic group
#[derive(Debug, Clone)]
pub struct BasicGroupFullInfo {
    /// Group description
    pub description: String,
    /// User identifier of the creator of the group; 0 if unknown
    pub creator_user_id: i32,
    /// Group members
    pub members: Vec<ChatMember>,
    /// Invite link for this group; available only after it has been generated at least once and
    /// only for the group creator
    pub invite_link: String,
}

/// Represents a supergroup or channel with zero or more members (subscribers in the case of
/// channels). From the point of view of the system, a channel is a special kind of a supergroup:
/// only administrators can post and see the list of members, and posts from all administrators use
/// the name and photo of the channel instead of individual names and profile photos. Unlike
/// supergroups, channels can have an unlimited number of subscribers
#[derive(Debug, Clone)]
pub struct Supergroup {
    /// Supergroup or channel identifier
    pub id: i32,
    /// Username of the supergroup or channel; empty for private supergroups or channels
    pub username: String,
    /// Point in time (Unix timestamp) when the current user joined, or the point in time when the
    /// supergroup or channel was created, in case the user is not a member
    pub date: i32,
    /// Status of the current user in the supergroup or channel; custom title will be always empty
    pub status: ChatMemberStatus,
    /// Number of members in the supergroup or channel; 0 if unknown. Currently it is guaranteed to
    /// be known only if the supergroup or channel was found through SearchPublicChats
    pub member_count: i32,
    /// True, if the channel has a discussion group, or the supergroup is the designated discussion
    /// group for a channel
    pub has_linked_chat: bool,
    /// True, if the supergroup is connected to a location, i.e. the supergroup is a location-based
    /// supergroup
    pub has_location: bool,
    /// True, if messages sent to the channel should contain information about the sender. This
    /// field is only applicable to channels
    pub sign_messages: bool,
    /// True, if the slow mode is enabled in the supergroup
    pub is_slow_mode_enabled: bool,
    /// True, if the supergroup is a channel
    pub is_channel: bool,
    /// True, if the supergroup or channel is verified
    pub is_verified: bool,
    /// If non-empty, contains a human-readable description of the reason why access to this
    /// supergroup or channel must be restricted
    pub restriction_reason: String,
    /// True, if many users reported this supergroup as a scam
    pub is_scam: bool,
}

/// The secret chat is not yet created; waiting for the other user to get online
#[derive(Debug, Clone)]
pub struct SecretChatStatePending {}

/// The secret chat is ready to use
#[derive(Debug, Clone)]
pub struct SecretChatStateReady {}

/// The secret chat is closed
#[derive(Debug, Clone)]
pub struct SecretChatStateClosed {}

/// Represents a secret chat
#[derive(Debug, Clone)]
pub struct SecretChat {
    /// Secret chat identifier
    pub id: i32,
    /// Identifier of the chat partner
    pub user_id: i32,
    /// State of the secret chat
    pub state: SecretChatState,
    /// True, if the chat was created by the current user; otherwise false
    pub is_outbound: bool,
    /// Current message Time To Live setting (self-destruct timer) for the chat, in seconds
    pub ttl: i32,
    /// Hash of the currently used key for comparison with the hash of the chat partner's key. This
    /// is a string of 36 little-endian bytes, which must be split into groups of 2 bits, each
    /// denoting a pixel of one of 4 colors FFFFFF, D5E6F3, 2D5775, and 2F99C9.
    /// The pixels must be used to make a 12x12 square image filled from left to right, top to
    /// bottom. Alternatively, the first 32 bytes of the hash can be converted to the hexadecimal
    /// format and printed as 32 2-digit hex numbers
    pub key_hash: String,
    /// Secret chat layer; determines features supported by the other client. Video notes are
    /// supported if the layer >= 66; nested text entities and underline and strikethrough entities
    /// are supported if the layer >= 101
    pub layer: i32,
}

/// The message was originally written by a known user
#[derive(Debug, Clone)]
pub struct MessageForwardOriginUser {
    /// Identifier of the user that originally sent the message
    pub sender_user_id: i32,
}

/// The message was originally written by a user, which is hidden by their privacy settings
#[derive(Debug, Clone)]
pub struct MessageForwardOriginHiddenUser {
    /// Name of the sender
    pub sender_name: String,
}

/// The message was originally a post in a channel
#[derive(Debug, Clone)]
pub struct MessageForwardOriginChannel {
    /// Identifier of the chat from which the message was originally forwarded
    pub chat_id: i64,
    /// Message identifier of the original message; 0 if unknown
    pub message_id: i64,
    /// Original post author signature
    pub author_signature: String,
}

/// Contains information about a forwarded message
#[derive(Debug, Clone)]
pub struct MessageForwardInfo {
    /// Origin of a forwarded message
    pub origin: MessageForwardOrigin,
    /// Point in time (Unix timestamp) when the message was originally sent
    pub date: i32,
    /// The type of a public service announcement for the forwarded message
    pub public_service_announcement_type: String,
    /// For messages forwarded to the chat with the current user (Saved Messages) or to the
    /// channel's discussion group, the identifier of the chat from which the message was forwarded
    /// last time; 0 if unknown
    pub from_chat_id: i64,
    /// For messages forwarded to the chat with the current user (Saved Messages) or to the
    /// channel's discussion group, the identifier of the original message from which the new
    /// message was forwarded last time; 0 if unknown
    pub from_message_id: i64,
}

/// The message is being sent now, but has not yet been delivered to the server
#[derive(Debug, Clone)]
pub struct MessageSendingStatePending {}

/// Notification settings applied to all private and secret chats when the corresponding chat
/// setting has a default value
#[derive(Debug, Clone)]
pub struct NotificationSettingsScopePrivateChats {}

/// Notification settings applied to all basic groups and supergroups when the corresponding chat
/// setting has a default value
#[derive(Debug, Clone)]
pub struct NotificationSettingsScopeGroupChats {}

/// Notification settings applied to all channels when the corresponding chat setting has a default
/// value
#[derive(Debug, Clone)]
pub struct NotificationSettingsScopeChannelChats {}

/// Contains information about notification settings for a chat
#[derive(Debug, Clone)]
pub struct ChatNotificationSettings {
    /// If true, mute_for is ignored and the value for the relevant type of chat is used instead
    pub use_default_mute_for: bool,
    /// Time left before notifications will be unmuted, in seconds
    pub mute_for: i32,
    /// If true, sound is ignored and the value for the relevant type of chat is used instead
    pub use_default_sound: bool,
    /// The name of an audio file to be used for notification sounds; only applies to iOS
    /// applications
    pub sound: String,
    /// If true, show_preview is ignored and the value for the relevant type of chat is used instead
    pub use_default_show_preview: bool,
    /// True, if message content should be displayed in notifications
    pub show_preview: bool,
    /// If true, disable_pinned_message_notifications is ignored and the value for the relevant type
    /// of chat is used instead
    pub use_default_disable_pinned_message_notifications: bool,
    /// If true, notifications for incoming pinned messages will be created as for an ordinary
    /// unread message
    pub disable_pinned_message_notifications: bool,
    /// If true, disable_mention_notifications is ignored and the value for the relevant type of
    /// chat is used instead
    pub use_default_disable_mention_notifications: bool,
    /// If true, notifications for messages with mentions will be created as for an ordinary unread
    /// message
    pub disable_mention_notifications: bool,
}

/// Contains information about notification settings for several chats
#[derive(Debug, Clone)]
pub struct ScopeNotificationSettings {
    /// Time left before notifications will be unmuted, in seconds
    pub mute_for: i32,
    /// The name of an audio file to be used for notification sounds; only applies to iOS
    /// applications
    pub sound: String,
    /// True, if message content should be displayed in notifications
    pub show_preview: bool,
    /// True, if notifications for incoming pinned messages will be created as for an ordinary
    /// unread message
    pub disable_pinned_message_notifications: bool,
    /// True, if notifications for messages with mentions will be created as for an ordinary unread
    /// message
    pub disable_mention_notifications: bool,
}

/// An ordinary chat with a user
#[derive(Debug, Clone)]
pub struct ChatTypePrivate {
    /// User identifier
    pub user_id: i32,
}

/// A basic group (i.e., a chat with 0-200 other users)
#[derive(Debug, Clone)]
pub struct ChatTypeBasicGroup {
    /// Basic group identifier
    pub basic_group_id: i32,
}

/// A supergroup (i.e. a chat with up to GetOption("supergroup_max_size") other users), or channel
/// (with unlimited members)
#[derive(Debug, Clone)]
pub struct ChatTypeSupergroup {
    /// Supergroup or channel identifier
    pub supergroup_id: i32,
    /// True, if the supergroup is a channel
    pub is_channel: bool,
}

/// A secret chat with a user
#[derive(Debug, Clone)]
pub struct ChatTypeSecret {
    /// Secret chat identifier
    pub secret_chat_id: i32,
    /// User identifier of the secret chat peer
    pub user_id: i32,
}

/// A main list of chats
#[derive(Debug, Clone)]
pub struct ChatListMain {}

/// A list of chats usually located at the top of the main chat list. Unmuted chats are
/// automatically moved from the Archive to the Main chat list when a new message arrives
#[derive(Debug, Clone)]
pub struct ChatListArchive {}

/// The chat is sponsored by the user's MTProxy server
#[derive(Debug, Clone)]
pub struct ChatSourceMtprotoProxy {}

/// The chat contains a public service announcement
#[derive(Debug, Clone)]
pub struct ChatSourcePublicServiceAnnouncement {
    /// The type of the announcement
    pub type_: String,
    /// The text of the announcement
    pub text: String,
}

/// Represents a list of chats
#[derive(Debug, Clone)]
pub struct Chats {
    /// List of chat identifiers
    pub chat_ids: Vec<i64>,
}

/// Describes a chat located nearby
#[derive(Debug, Clone)]
pub struct ChatNearby {
    /// Chat identifier
    pub chat_id: i64,
    /// Distance to the chat location in meters
    pub distance: i32,
}

/// Represents a list of chats located nearby
#[derive(Debug, Clone)]
pub struct ChatsNearby {
    /// List of users nearby
    pub users_nearby: Vec<ChatNearby>,
    /// List of location-based supergroups nearby
    pub supergroups_nearby: Vec<ChatNearby>,
}

/// Contains a chat invite link
#[derive(Debug, Clone)]
pub struct ChatInviteLink {
    /// Chat invite link
    pub invite_link: String,
}

/// Contains information about a chat invite link
#[derive(Debug, Clone)]
pub struct ChatInviteLinkInfo {
    /// Chat identifier of the invite link; 0 if the user is not a member of this chat
    pub chat_id: i64,
    /// Contains information about the type of the chat
    pub type_: ChatType,
    /// Title of the chat
    pub title: String,
    /// Chat photo; may be null
    pub photo: Option<ChatPhoto>,
    /// Number of members in the chat
    pub member_count: i32,
    /// User identifiers of some chat members that may be known to the current user
    pub member_user_ids: Vec<i32>,
    /// True, if the chat is a public supergroup or channel, i.e. it has a username or it is a
    /// location-based supergroup
    pub is_public: bool,
}

/// The chat is public, because it has username
#[derive(Debug, Clone)]
pub struct PublicChatTypeHasUsername {}

/// The chat is public, because it is a location-based supergroup
#[derive(Debug, Clone)]
pub struct PublicChatTypeIsLocationBased {}

/// The chat can be reported as spam using the method reportChat with the reason
/// chatReportReasonSpam
#[derive(Debug, Clone)]
pub struct ChatActionBarReportSpam {}

/// The chat is a location-based supergroup, which can be reported as having unrelated location
/// using the method reportChat with the reason chatReportReasonUnrelatedLocation
#[derive(Debug, Clone)]
pub struct ChatActionBarReportUnrelatedLocation {}

/// The chat is a private or secret chat, which can be reported using the method reportChat, or the
/// other user can be added to the contact list using the method addContact, or the other user can
/// be blocked using the method blockUser
#[derive(Debug, Clone)]
pub struct ChatActionBarReportAddBlock {}

/// The chat is a private or secret chat and the other user can be added to the contact list using
/// the method addContact
#[derive(Debug, Clone)]
pub struct ChatActionBarAddContact {}

/// The chat is a private or secret chat with a mutual contact and the user's phone number can be
/// shared with the other user using the method sharePhoneNumber
#[derive(Debug, Clone)]
pub struct ChatActionBarSharePhoneNumber {}

/// A simple button, with text that should be sent when the button is pressed
#[derive(Debug, Clone)]
pub struct KeyboardButtonTypeText {}

/// A button that sends the user's phone number when pressed; available only in private chats
#[derive(Debug, Clone)]
pub struct KeyboardButtonTypeRequestPhoneNumber {}

/// A button that sends the user's location when pressed; available only in private chats
#[derive(Debug, Clone)]
pub struct KeyboardButtonTypeRequestLocation {}

/// A button that allows the user to create and send a poll when pressed; available only in private
/// chats
#[derive(Debug, Clone)]
pub struct KeyboardButtonTypeRequestPoll {
    /// If true, only regular polls must be allowed to create
    pub force_regular: bool,
    /// If true, only polls in quiz mode must be allowed to create
    pub force_quiz: bool,
}

/// Represents a single button in a bot keyboard
#[derive(Debug, Clone)]
pub struct KeyboardButton {
    /// Text of the button
    pub text: String,
    /// Type of the button
    pub type_: KeyboardButtonType,
}

/// A button that opens a specified URL
#[derive(Debug, Clone)]
pub struct InlineKeyboardButtonTypeUrl {
    /// HTTP or tg:// URL to open
    pub url: String,
}

/// A button that opens a specified URL and automatically logs in in current user if they allowed to
/// do that
#[derive(Debug, Clone)]
pub struct InlineKeyboardButtonTypeLoginUrl {
    /// An HTTP URL to open
    pub url: String,
    /// Unique button identifier
    pub id: i32,
    /// If non-empty, new text of the button in forwarded messages
    pub forward_text: String,
}

/// A button that sends a special callback query to a bot
#[derive(Debug, Clone)]
pub struct InlineKeyboardButtonTypeCallback {
    /// Data to be sent to the bot via a callback query
    pub data: String,
}

/// A button with a game that sends a special callback query to a bot. This button must be in the
/// first column and row of the keyboard and can be attached only to a message with content of the
/// type messageGame
#[derive(Debug, Clone)]
pub struct InlineKeyboardButtonTypeCallbackGame {}

/// A button that forces an inline query to the bot to be inserted in the input field
#[derive(Debug, Clone)]
pub struct InlineKeyboardButtonTypeSwitchInline {
    /// Inline query to be sent to the bot
    pub query: String,
    /// True, if the inline query should be sent from the current chat
    pub in_current_chat: bool,
}

/// A button to buy something. This button must be in the first column and row of the keyboard and
/// can be attached only to a message with content of the type messageInvoice
#[derive(Debug, Clone)]
pub struct InlineKeyboardButtonTypeBuy {}

/// Represents a single button in an inline keyboard
#[derive(Debug, Clone)]
pub struct InlineKeyboardButton {
    /// Text of the button
    pub text: String,
    /// Type of the button
    pub type_: InlineKeyboardButtonType,
}

/// Instructs clients to remove the keyboard once this message has been received. This kind of
/// keyboard can't be received in an incoming message; instead, UpdateChatReplyMarkup with
/// message_id == 0 will be sent
#[derive(Debug, Clone)]
pub struct ReplyMarkupRemoveKeyboard {
    /// True, if the keyboard is removed only for the mentioned users or the target user of a reply
    pub is_personal: bool,
}

/// Instructs clients to force a reply to this message
#[derive(Debug, Clone)]
pub struct ReplyMarkupForceReply {
    /// True, if a forced reply must automatically be shown to the current user. For outgoing
    /// messages, specify true to show the forced reply only for the mentioned users and for the
    /// target user of a reply
    pub is_personal: bool,
}

/// Contains a custom keyboard layout to quickly reply to bots
#[derive(Debug, Clone)]
pub struct ReplyMarkupShowKeyboard {
    /// A list of rows of bot keyboard buttons
    pub rows: Vec<Vec<KeyboardButton>>,
    /// True, if the client needs to resize the keyboard vertically
    pub resize_keyboard: bool,
    /// True, if the client needs to hide the keyboard after use
    pub one_time: bool,
    /// True, if the keyboard must automatically be shown to the current user. For outgoing
    /// messages, specify true to show the keyboard only for the mentioned users and for the target
    /// user of a reply
    pub is_personal: bool,
}

/// Contains an inline keyboard layout
#[derive(Debug, Clone)]
pub struct ReplyMarkupInlineKeyboard {
    /// A list of rows of inline keyboard buttons
    pub rows: Vec<Vec<InlineKeyboardButton>>,
}

/// An HTTP url needs to be open
#[derive(Debug, Clone)]
pub struct LoginUrlInfoOpen {
    /// The URL to open
    pub url: String,
    /// True, if there is no need to show an ordinary open URL confirm
    pub skip_confirm: bool,
}

/// An authorization confirmation dialog needs to be shown to the user
#[derive(Debug, Clone)]
pub struct LoginUrlInfoRequestConfirmation {
    /// An HTTP URL to be opened
    pub url: String,
    /// A domain of the URL
    pub domain: String,
    /// User identifier of a bot linked with the website
    pub bot_user_id: i32,
    /// True, if the user needs to be requested to give the permission to the bot to send them
    /// messages
    pub request_write_access: bool,
}

/// A plain text
#[derive(Debug, Clone)]
pub struct RichTextPlain {
    /// Text
    pub text: String,
}

/// A bold rich text
#[derive(Debug)]
pub struct RichTextBold {
    /// Text
    pub text: Box<RichText>,
}

/// An italicized rich text
#[derive(Debug)]
pub struct RichTextItalic {
    /// Text
    pub text: Box<RichText>,
}

/// An underlined rich text
#[derive(Debug)]
pub struct RichTextUnderline {
    /// Text
    pub text: Box<RichText>,
}

/// A strikethrough rich text
#[derive(Debug)]
pub struct RichTextStrikethrough {
    /// Text
    pub text: Box<RichText>,
}

/// A fixed-width rich text
#[derive(Debug)]
pub struct RichTextFixed {
    /// Text
    pub text: Box<RichText>,
}

/// A rich text URL link
#[derive(Debug)]
pub struct RichTextUrl {
    /// Text
    pub text: Box<RichText>,
    /// URL
    pub url: String,
    /// True, if the URL has cached instant view server-side
    pub is_cached: bool,
}

/// A rich text email link
#[derive(Debug)]
pub struct RichTextEmailAddress {
    /// Text
    pub text: Box<RichText>,
    /// Email address
    pub email_address: String,
}

/// A subscript rich text
#[derive(Debug)]
pub struct RichTextSubscript {
    /// Text
    pub text: Box<RichText>,
}

/// A superscript rich text
#[derive(Debug)]
pub struct RichTextSuperscript {
    /// Text
    pub text: Box<RichText>,
}

/// A marked rich text
#[derive(Debug)]
pub struct RichTextMarked {
    /// Text
    pub text: Box<RichText>,
}

/// A rich text phone number
#[derive(Debug)]
pub struct RichTextPhoneNumber {
    /// Text
    pub text: Box<RichText>,
    /// Phone number
    pub phone_number: String,
}

/// A small image inside the text
#[derive(Debug, Clone)]
pub struct RichTextIcon {
    /// The image represented as a document. The image can be in GIF, JPEG or PNG format
    pub document: Document,
    /// Width of a bounding box in which the image should be shown; 0 if unknown
    pub width: i32,
    /// Height of a bounding box in which the image should be shown; 0 if unknown
    pub height: i32,
}

/// A rich text reference of a text on the same web page
#[derive(Debug)]
pub struct RichTextReference {
    /// The text
    pub text: Box<RichText>,
    /// The text to show on click
    pub reference_text: Box<RichText>,
    /// An HTTP URL, opening the reference
    pub url: String,
}

/// An anchor
#[derive(Debug, Clone)]
pub struct RichTextAnchor {
    /// Anchor name
    pub name: String,
}

/// A link to an anchor on the same web page
#[derive(Debug)]
pub struct RichTextAnchorLink {
    /// The link text
    pub text: Box<RichText>,
    /// The anchor name. If the name is empty, the link should bring back to top
    pub name: String,
    /// An HTTP URL, opening the anchor
    pub url: String,
}

/// A concatenation of rich texts
#[derive(Debug)]
pub struct RichTexts {
    /// Texts
    pub texts: Vec<RichText>,
}

/// Contains a caption of an instant view web page block, consisting of a text and a trailing credit
#[derive(Debug)]
pub struct PageBlockCaption {
    /// Content of the caption
    pub text: RichText,
    /// Block credit (like HTML tag <cite>)
    pub credit: RichText,
}

/// The content should be left-aligned
#[derive(Debug, Clone)]
pub struct PageBlockHorizontalAlignmentLeft {}

/// The content should be center-aligned
#[derive(Debug, Clone)]
pub struct PageBlockHorizontalAlignmentCenter {}

/// The content should be right-aligned
#[derive(Debug, Clone)]
pub struct PageBlockHorizontalAlignmentRight {}

/// The content should be top-aligned
#[derive(Debug, Clone)]
pub struct PageBlockVerticalAlignmentTop {}

/// The content should be middle-aligned
#[derive(Debug, Clone)]
pub struct PageBlockVerticalAlignmentMiddle {}

/// The content should be bottom-aligned
#[derive(Debug, Clone)]
pub struct PageBlockVerticalAlignmentBottom {}

/// Represents a cell of a table
#[derive(Debug)]
pub struct PageBlockTableCell {
    /// Cell text; may be null. If the text is null, then the cell should be invisible
    pub text: Option<RichText>,
    /// True, if it is a header cell
    pub is_header: bool,
    /// The number of columns the cell should span
    pub colspan: i32,
    /// The number of rows the cell should span
    pub rowspan: i32,
    /// Horizontal cell content alignment
    pub align: PageBlockHorizontalAlignment,
    /// Vertical cell content alignment
    pub valign: PageBlockVerticalAlignment,
}

/// Contains information about a related article
#[derive(Debug, Clone)]
pub struct PageBlockRelatedArticle {
    /// Related article URL
    pub url: String,
    /// Article title; may be empty
    pub title: String,
    /// Article description; may be empty
    pub description: String,
    /// Article photo; may be null
    pub photo: Option<Photo>,
    /// Article author; may be empty
    pub author: String,
    /// Point in time (Unix timestamp) when the article was published; 0 if unknown
    pub publish_date: i32,
}

/// The title of a page
#[derive(Debug)]
pub struct PageBlockTitle {
    /// Title
    pub title: RichText,
}

/// The subtitle of a page
#[derive(Debug)]
pub struct PageBlockSubtitle {
    /// Subtitle
    pub subtitle: RichText,
}

/// The author and publishing date of a page
#[derive(Debug)]
pub struct PageBlockAuthorDate {
    /// Author
    pub author: RichText,
    /// Point in time (Unix timestamp) when the article was published; 0 if unknown
    pub publish_date: i32,
}

/// A header
#[derive(Debug)]
pub struct PageBlockHeader {
    /// Header
    pub header: RichText,
}

/// A subheader
#[derive(Debug)]
pub struct PageBlockSubheader {
    /// Subheader
    pub subheader: RichText,
}

/// A kicker
#[derive(Debug)]
pub struct PageBlockKicker {
    /// Kicker
    pub kicker: RichText,
}

/// A text paragraph
#[derive(Debug)]
pub struct PageBlockParagraph {
    /// Paragraph text
    pub text: RichText,
}

/// A preformatted text paragraph
#[derive(Debug)]
pub struct PageBlockPreformatted {
    /// Paragraph text
    pub text: RichText,
    /// Programming language for which the text should be formatted
    pub language: String,
}

/// The footer of a page
#[derive(Debug)]
pub struct PageBlockFooter {
    /// Footer
    pub footer: RichText,
}

/// An empty block separating a page
#[derive(Debug, Clone)]
pub struct PageBlockDivider {}

/// An invisible anchor on a page, which can be used in a URL to open the page from the specified
/// anchor
#[derive(Debug, Clone)]
pub struct PageBlockAnchor {
    /// Name of the anchor
    pub name: String,
}

/// A block quote
#[derive(Debug)]
pub struct PageBlockBlockQuote {
    /// Quote text
    pub text: RichText,
    /// Quote credit
    pub credit: RichText,
}

/// A pull quote
#[derive(Debug)]
pub struct PageBlockPullQuote {
    /// Quote text
    pub text: RichText,
    /// Quote credit
    pub credit: RichText,
}

/// An animation
#[derive(Debug)]
pub struct PageBlockAnimation {
    /// Animation file; may be null
    pub animation: Option<Animation>,
    /// Animation caption
    pub caption: PageBlockCaption,
    /// True, if the animation should be played automatically
    pub need_autoplay: bool,
}

/// An audio file
#[derive(Debug)]
pub struct PageBlockAudio {
    /// Audio file; may be null
    pub audio: Option<Audio>,
    /// Audio file caption
    pub caption: PageBlockCaption,
}

/// A photo
#[derive(Debug)]
pub struct PageBlockPhoto {
    /// Photo file; may be null
    pub photo: Option<Photo>,
    /// Photo caption
    pub caption: PageBlockCaption,
    /// URL that needs to be opened when the photo is clicked
    pub url: String,
}

/// A video
#[derive(Debug)]
pub struct PageBlockVideo {
    /// Video file; may be null
    pub video: Option<Video>,
    /// Video caption
    pub caption: PageBlockCaption,
    /// True, if the video should be played automatically
    pub need_autoplay: bool,
    /// True, if the video should be looped
    pub is_looped: bool,
}

/// A voice note
#[derive(Debug)]
pub struct PageBlockVoiceNote {
    /// Voice note; may be null
    pub voice_note: Option<VoiceNote>,
    /// Voice note caption
    pub caption: PageBlockCaption,
}

/// An embedded web page
#[derive(Debug)]
pub struct PageBlockEmbedded {
    /// Web page URL, if available
    pub url: String,
    /// HTML-markup of the embedded page
    pub html: String,
    /// Poster photo, if available; may be null
    pub poster_photo: Option<Photo>,
    /// Block width; 0 if unknown
    pub width: i32,
    /// Block height; 0 if unknown
    pub height: i32,
    /// Block caption
    pub caption: PageBlockCaption,
    /// True, if the block should be full width
    pub is_full_width: bool,
    /// True, if scrolling should be allowed
    pub allow_scrolling: bool,
}

/// A link to a chat
#[derive(Debug, Clone)]
pub struct PageBlockChatLink {
    /// Chat title
    pub title: String,
    /// Chat photo; may be null
    pub photo: Option<ChatPhoto>,
    /// Chat username, by which all other information about the chat should be resolved
    pub username: String,
}

/// A table
#[derive(Debug)]
pub struct PageBlockTable {
    /// Table caption
    pub caption: RichText,
    /// Table cells
    pub cells: Vec<Vec<PageBlockTableCell>>,
    /// True, if the table is bordered
    pub is_bordered: bool,
    /// True, if the table is striped
    pub is_striped: bool,
}

/// Related articles
#[derive(Debug)]
pub struct PageBlockRelatedArticles {
    /// Block header
    pub header: RichText,
    /// List of related articles
    pub articles: Vec<PageBlockRelatedArticle>,
}

/// Describes an action associated with a bank card number
#[derive(Debug, Clone)]
pub struct BankCardActionOpenUrl {
    /// Action text
    pub text: String,
    /// The URL to be opened
    pub url: String,
}

/// Information about a bank card
#[derive(Debug, Clone)]
pub struct BankCardInfo {
    /// Title of the bank card description
    pub title: String,
    /// Actions that can be done with the bank card number
    pub actions: Vec<BankCardActionOpenUrl>,
}

/// Describes an address
#[derive(Debug, Clone)]
pub struct Address {
    /// A two-letter ISO 3166-1 alpha-2 country code
    pub country_code: String,
    /// State, if applicable
    pub state: String,
    /// City
    pub city: String,
    /// First line of the address
    pub street_line1: String,
    /// Second line of the address
    pub street_line2: String,
    /// Address postal code
    pub postal_code: String,
}

/// Portion of the price of a product (e.g., "delivery cost", "tax amount")
#[derive(Debug, Clone)]
pub struct LabeledPricePart {
    /// Label for this portion of the product price
    pub label: String,
    /// Currency amount in minimal quantity of the currency
    pub amount: i64,
}

/// Product invoice
#[derive(Debug, Clone)]
pub struct Invoice {
    /// ISO 4217 currency code
    pub currency: String,
    /// A list of objects used to calculate the total price of the product
    pub price_parts: Vec<LabeledPricePart>,
    /// True, if the payment is a test payment
    pub is_test: bool,
    /// True, if the user's name is needed for payment
    pub need_name: bool,
    /// True, if the user's phone number is needed for payment
    pub need_phone_number: bool,
    /// True, if the user's email address is needed for payment
    pub need_email_address: bool,
    /// True, if the user's shipping address is needed for payment
    pub need_shipping_address: bool,
    /// True, if the user's phone number will be sent to the provider
    pub send_phone_number_to_provider: bool,
    /// True, if the user's email address will be sent to the provider
    pub send_email_address_to_provider: bool,
    /// True, if the total price depends on the shipping method
    pub is_flexible: bool,
}

/// Order information
#[derive(Debug, Clone)]
pub struct OrderInfo {
    /// Name of the user
    pub name: String,
    /// Phone number of the user
    pub phone_number: String,
    /// Email address of the user
    pub email_address: String,
    /// Shipping address for this order; may be null
    pub shipping_address: Option<Address>,
}

/// One shipping option
#[derive(Debug, Clone)]
pub struct ShippingOption {
    /// Shipping option identifier
    pub id: String,
    /// Option title
    pub title: String,
    /// A list of objects used to calculate the total shipping costs
    pub price_parts: Vec<LabeledPricePart>,
}

/// Contains information about saved card credentials
#[derive(Debug, Clone)]
pub struct SavedCredentials {
    /// Unique identifier of the saved credentials
    pub id: String,
    /// Title of the saved credentials
    pub title: String,
}

/// Applies if a user chooses some previously saved payment credentials. To use their previously
/// saved credentials, the user must have a valid temporary password
#[derive(Debug, Clone)]
pub struct InputCredentialsSaved {
    /// Identifier of the saved credentials
    pub saved_credentials_id: String,
}

/// Applies if a user enters new credentials on a payment provider website
#[derive(Debug, Clone)]
pub struct InputCredentialsNew {
    /// Contains JSON-encoded data with a credential identifier from the payment provider
    pub data: String,
    /// True, if the credential identifier can be saved on the server side
    pub allow_save: bool,
}

/// Applies if a user enters new credentials using Android Pay
#[derive(Debug, Clone)]
pub struct InputCredentialsAndroidPay {
    /// JSON-encoded data with the credential identifier
    pub data: String,
}

/// Applies if a user enters new credentials using Apple Pay
#[derive(Debug, Clone)]
pub struct InputCredentialsApplePay {
    /// JSON-encoded data with the credential identifier
    pub data: String,
}

/// Stripe payment provider
#[derive(Debug, Clone)]
pub struct PaymentsProviderStripe {
    /// Stripe API publishable key
    pub publishable_key: String,
    /// True, if the user country must be provided
    pub need_country: bool,
    /// True, if the user ZIP/postal code must be provided
    pub need_postal_code: bool,
    /// True, if the cardholder name must be provided
    pub need_cardholder_name: bool,
}

/// Contains information about an invoice payment form
#[derive(Debug, Clone)]
pub struct PaymentForm {
    /// Full information of the invoice
    pub invoice: Invoice,
    /// Payment form URL
    pub url: String,
    /// Contains information about the payment provider, if available, to support it natively
    /// without the need for opening the URL; may be null
    pub payments_provider: Option<PaymentsProviderStripe>,
    /// Saved server-side order information; may be null
    pub saved_order_info: Option<OrderInfo>,
    /// Contains information about saved card credentials; may be null
    pub saved_credentials: Option<SavedCredentials>,
    /// True, if the user can choose to save credentials
    pub can_save_credentials: bool,
    /// True, if the user will be able to save credentials protected by a password they set up
    pub need_password: bool,
}

/// Contains a temporary identifier of validated order information, which is stored for one hour.
/// Also contains the available shipping options
#[derive(Debug, Clone)]
pub struct ValidatedOrderInfo {
    /// Temporary identifier of the order information
    pub order_info_id: String,
    /// Available shipping options
    pub shipping_options: Vec<ShippingOption>,
}

/// Contains the result of a payment request
#[derive(Debug, Clone)]
pub struct PaymentResult {
    /// True, if the payment request was successful; otherwise the verification_url will be not
    /// empty
    pub success: bool,
    /// URL for additional payment credentials verification
    pub verification_url: String,
}

/// Contains information about a successful payment
#[derive(Debug, Clone)]
pub struct PaymentReceipt {
    /// Point in time (Unix timestamp) when the payment was made
    pub date: i32,
    /// User identifier of the payment provider bot
    pub payments_provider_user_id: i32,
    /// Contains information about the invoice
    pub invoice: Invoice,
    /// Contains order information; may be null
    pub order_info: Option<OrderInfo>,
    /// Chosen shipping option; may be null
    pub shipping_option: Option<ShippingOption>,
    /// Title of the saved credentials
    pub credentials_title: String,
}

/// File with the date it was uploaded
#[derive(Debug, Clone)]
pub struct DatedFile {
    /// The file
    pub file: File,
    /// Point in time (Unix timestamp) when the file was uploaded
    pub date: i32,
}

/// A Telegram Passport element containing the user's personal details
#[derive(Debug, Clone)]
pub struct PassportElementTypePersonalDetails {}

/// A Telegram Passport element containing the user's passport
#[derive(Debug, Clone)]
pub struct PassportElementTypePassport {}

/// A Telegram Passport element containing the user's driver license
#[derive(Debug, Clone)]
pub struct PassportElementTypeDriverLicense {}

/// A Telegram Passport element containing the user's identity card
#[derive(Debug, Clone)]
pub struct PassportElementTypeIdentityCard {}

/// A Telegram Passport element containing the user's internal passport
#[derive(Debug, Clone)]
pub struct PassportElementTypeInternalPassport {}

/// A Telegram Passport element containing the user's address
#[derive(Debug, Clone)]
pub struct PassportElementTypeAddress {}

/// A Telegram Passport element containing the user's utility bill
#[derive(Debug, Clone)]
pub struct PassportElementTypeUtilityBill {}

/// A Telegram Passport element containing the user's bank statement
#[derive(Debug, Clone)]
pub struct PassportElementTypeBankStatement {}

/// A Telegram Passport element containing the user's rental agreement
#[derive(Debug, Clone)]
pub struct PassportElementTypeRentalAgreement {}

/// A Telegram Passport element containing the registration page of the user's passport
#[derive(Debug, Clone)]
pub struct PassportElementTypePassportRegistration {}

/// A Telegram Passport element containing the user's temporary registration
#[derive(Debug, Clone)]
pub struct PassportElementTypeTemporaryRegistration {}

/// A Telegram Passport element containing the user's phone number
#[derive(Debug, Clone)]
pub struct PassportElementTypePhoneNumber {}

/// A Telegram Passport element containing the user's email address
#[derive(Debug, Clone)]
pub struct PassportElementTypeEmailAddress {}

/// Represents a date according to the Gregorian calendar
#[derive(Debug, Clone)]
pub struct Date {
    /// Day of the month, 1-31
    pub day: i32,
    /// Month, 1-12
    pub month: i32,
    /// Year, 1-9999
    pub year: i32,
}

/// Contains the user's personal details
#[derive(Debug, Clone)]
pub struct PersonalDetails {
    /// First name of the user written in English; 1-255 characters
    pub first_name: String,
    /// Middle name of the user written in English; 0-255 characters
    pub middle_name: String,
    /// Last name of the user written in English; 1-255 characters
    pub last_name: String,
    /// Native first name of the user; 1-255 characters
    pub native_first_name: String,
    /// Native middle name of the user; 0-255 characters
    pub native_middle_name: String,
    /// Native last name of the user; 1-255 characters
    pub native_last_name: String,
    /// Birthdate of the user
    pub birthdate: Date,
    /// Gender of the user, "male" or "female"
    pub gender: String,
    /// A two-letter ISO 3166-1 alpha-2 country code of the user's country
    pub country_code: String,
    /// A two-letter ISO 3166-1 alpha-2 country code of the user's residence country
    pub residence_country_code: String,
}

/// An identity document
#[derive(Debug, Clone)]
pub struct IdentityDocument {
    /// Document number; 1-24 characters
    pub number: String,
    /// Document expiry date; may be null
    pub expiry_date: Option<Date>,
    /// Front side of the document
    pub front_side: DatedFile,
    /// Reverse side of the document; only for driver license and identity card
    pub reverse_side: DatedFile,
    /// Selfie with the document; may be null
    pub selfie: Option<DatedFile>,
    /// List of files containing a certified English translation of the document
    pub translation: Vec<DatedFile>,
}

/// An identity document to be saved to Telegram Passport
#[derive(Debug, Clone)]
pub struct InputIdentityDocument {
    /// Document number; 1-24 characters
    pub number: String,
    /// Document expiry date, if available
    pub expiry_date: Date,
    /// Front side of the document
    pub front_side: InputFile,
    /// Reverse side of the document; only for driver license and identity card
    pub reverse_side: InputFile,
    /// Selfie with the document, if available
    pub selfie: InputFile,
    /// List of files containing a certified English translation of the document
    pub translation: Vec<InputFile>,
}

/// A personal document, containing some information about a user
#[derive(Debug, Clone)]
pub struct PersonalDocument {
    /// List of files containing the pages of the document
    pub files: Vec<DatedFile>,
    /// List of files containing a certified English translation of the document
    pub translation: Vec<DatedFile>,
}

/// A personal document to be saved to Telegram Passport
#[derive(Debug, Clone)]
pub struct InputPersonalDocument {
    /// List of files containing the pages of the document
    pub files: Vec<InputFile>,
    /// List of files containing a certified English translation of the document
    pub translation: Vec<InputFile>,
}

/// A Telegram Passport element containing the user's personal details
#[derive(Debug, Clone)]
pub struct PassportElementPersonalDetails {
    /// Personal details of the user
    pub personal_details: PersonalDetails,
}

/// A Telegram Passport element containing the user's passport
#[derive(Debug, Clone)]
pub struct PassportElementPassport {
    /// Passport
    pub passport: IdentityDocument,
}

/// A Telegram Passport element containing the user's driver license
#[derive(Debug, Clone)]
pub struct PassportElementDriverLicense {
    /// Driver license
    pub driver_license: IdentityDocument,
}

/// A Telegram Passport element containing the user's identity card
#[derive(Debug, Clone)]
pub struct PassportElementIdentityCard {
    /// Identity card
    pub identity_card: IdentityDocument,
}

/// A Telegram Passport element containing the user's internal passport
#[derive(Debug, Clone)]
pub struct PassportElementInternalPassport {
    /// Internal passport
    pub internal_passport: IdentityDocument,
}

/// A Telegram Passport element containing the user's address
#[derive(Debug, Clone)]
pub struct PassportElementAddress {
    /// Address
    pub address: Address,
}

/// A Telegram Passport element containing the user's utility bill
#[derive(Debug, Clone)]
pub struct PassportElementUtilityBill {
    /// Utility bill
    pub utility_bill: PersonalDocument,
}

/// A Telegram Passport element containing the user's bank statement
#[derive(Debug, Clone)]
pub struct PassportElementBankStatement {
    /// Bank statement
    pub bank_statement: PersonalDocument,
}

/// A Telegram Passport element containing the user's rental agreement
#[derive(Debug, Clone)]
pub struct PassportElementRentalAgreement {
    /// Rental agreement
    pub rental_agreement: PersonalDocument,
}

/// A Telegram Passport element containing the user's passport registration pages
#[derive(Debug, Clone)]
pub struct PassportElementPassportRegistration {
    /// Passport registration pages
    pub passport_registration: PersonalDocument,
}

/// A Telegram Passport element containing the user's temporary registration
#[derive(Debug, Clone)]
pub struct PassportElementTemporaryRegistration {
    /// Temporary registration
    pub temporary_registration: PersonalDocument,
}

/// A Telegram Passport element containing the user's phone number
#[derive(Debug, Clone)]
pub struct PassportElementPhoneNumber {
    /// Phone number
    pub phone_number: String,
}

/// A Telegram Passport element containing the user's email address
#[derive(Debug, Clone)]
pub struct PassportElementEmailAddress {
    /// Email address
    pub email_address: String,
}

/// A Telegram Passport element to be saved containing the user's personal details
#[derive(Debug, Clone)]
pub struct InputPassportElementPersonalDetails {
    /// Personal details of the user
    pub personal_details: PersonalDetails,
}

/// A Telegram Passport element to be saved containing the user's passport
#[derive(Debug, Clone)]
pub struct InputPassportElementPassport {
    /// The passport to be saved
    pub passport: InputIdentityDocument,
}

/// A Telegram Passport element to be saved containing the user's driver license
#[derive(Debug, Clone)]
pub struct InputPassportElementDriverLicense {
    /// The driver license to be saved
    pub driver_license: InputIdentityDocument,
}

/// A Telegram Passport element to be saved containing the user's identity card
#[derive(Debug, Clone)]
pub struct InputPassportElementIdentityCard {
    /// The identity card to be saved
    pub identity_card: InputIdentityDocument,
}

/// A Telegram Passport element to be saved containing the user's internal passport
#[derive(Debug, Clone)]
pub struct InputPassportElementInternalPassport {
    /// The internal passport to be saved
    pub internal_passport: InputIdentityDocument,
}

/// A Telegram Passport element to be saved containing the user's address
#[derive(Debug, Clone)]
pub struct InputPassportElementAddress {
    /// The address to be saved
    pub address: Address,
}

/// A Telegram Passport element to be saved containing the user's utility bill
#[derive(Debug, Clone)]
pub struct InputPassportElementUtilityBill {
    /// The utility bill to be saved
    pub utility_bill: InputPersonalDocument,
}

/// A Telegram Passport element to be saved containing the user's bank statement
#[derive(Debug, Clone)]
pub struct InputPassportElementBankStatement {
    /// The bank statement to be saved
    pub bank_statement: InputPersonalDocument,
}

/// A Telegram Passport element to be saved containing the user's rental agreement
#[derive(Debug, Clone)]
pub struct InputPassportElementRentalAgreement {
    /// The rental agreement to be saved
    pub rental_agreement: InputPersonalDocument,
}

/// A Telegram Passport element to be saved containing the user's passport registration
#[derive(Debug, Clone)]
pub struct InputPassportElementPassportRegistration {
    /// The passport registration page to be saved
    pub passport_registration: InputPersonalDocument,
}

/// A Telegram Passport element to be saved containing the user's temporary registration
#[derive(Debug, Clone)]
pub struct InputPassportElementTemporaryRegistration {
    /// The temporary registration document to be saved
    pub temporary_registration: InputPersonalDocument,
}

/// A Telegram Passport element to be saved containing the user's phone number
#[derive(Debug, Clone)]
pub struct InputPassportElementPhoneNumber {
    /// The phone number to be saved
    pub phone_number: String,
}

/// A Telegram Passport element to be saved containing the user's email address
#[derive(Debug, Clone)]
pub struct InputPassportElementEmailAddress {
    /// The email address to be saved
    pub email_address: String,
}

/// Contains information about saved Telegram Passport elements
#[derive(Debug, Clone)]
pub struct PassportElements {
    /// Telegram Passport elements
    pub elements: Vec<PassportElement>,
}

/// The element contains an error in an unspecified place. The error will be considered resolved
/// when new data is added
#[derive(Debug, Clone)]
pub struct PassportElementErrorSourceUnspecified {}

/// One of the data fields contains an error. The error will be considered resolved when the value
/// of the field changes
#[derive(Debug, Clone)]
pub struct PassportElementErrorSourceDataField {
    /// Field name
    pub field_name: String,
}

/// The front side of the document contains an error. The error will be considered resolved when the
/// file with the front side changes
#[derive(Debug, Clone)]
pub struct PassportElementErrorSourceFrontSide {}

/// The reverse side of the document contains an error. The error will be considered resolved when
/// the file with the reverse side changes
#[derive(Debug, Clone)]
pub struct PassportElementErrorSourceReverseSide {}

/// The selfie with the document contains an error. The error will be considered resolved when the
/// file with the selfie changes
#[derive(Debug, Clone)]
pub struct PassportElementErrorSourceSelfie {}

/// One of files with the translation of the document contains an error. The error will be
/// considered resolved when the file changes
#[derive(Debug, Clone)]
pub struct PassportElementErrorSourceTranslationFile {
    /// Index of a file with the error
    pub file_index: i32,
}

/// The translation of the document contains an error. The error will be considered resolved when
/// the list of translation files changes
#[derive(Debug, Clone)]
pub struct PassportElementErrorSourceTranslationFiles {}

/// The file contains an error. The error will be considered resolved when the file changes
#[derive(Debug, Clone)]
pub struct PassportElementErrorSourceFile {
    /// Index of a file with the error
    pub file_index: i32,
}

/// The list of attached files contains an error. The error will be considered resolved when the
/// list of files changes
#[derive(Debug, Clone)]
pub struct PassportElementErrorSourceFiles {}

/// Contains the description of an error in a Telegram Passport element
#[derive(Debug, Clone)]
pub struct PassportElementError {
    /// Type of the Telegram Passport element which has the error
    pub type_: PassportElementType,
    /// Error message
    pub message: String,
    /// Error source
    pub source: PassportElementErrorSource,
}

/// Contains information about a Telegram Passport element that was requested by a service
#[derive(Debug, Clone)]
pub struct PassportSuitableElement {
    /// Type of the element
    pub type_: PassportElementType,
    /// True, if a selfie is required with the identity document
    pub is_selfie_required: bool,
    /// True, if a certified English translation is required with the document
    pub is_translation_required: bool,
    /// True, if personal details must include the user's name in the language of their country of
    /// residence
    pub is_native_name_required: bool,
}

/// Contains a description of the required Telegram Passport element that was requested by a service
#[derive(Debug, Clone)]
pub struct PassportRequiredElement {
    /// List of Telegram Passport elements any of which is enough to provide
    pub suitable_elements: Vec<PassportSuitableElement>,
}

/// Contains information about a Telegram Passport authorization form that was requested
#[derive(Debug, Clone)]
pub struct PassportAuthorizationForm {
    /// Unique identifier of the authorization form
    pub id: i32,
    /// Information about the Telegram Passport elements that need to be provided to complete the
    /// form
    pub required_elements: Vec<PassportRequiredElement>,
    /// URL for the privacy policy of the service; may be empty
    pub privacy_policy_url: String,
}

/// Contains information about a Telegram Passport elements and corresponding errors
#[derive(Debug, Clone)]
pub struct PassportElementsWithErrors {
    /// Telegram Passport elements
    pub elements: Vec<PassportElement>,
    /// Errors in the elements that are already available
    pub errors: Vec<PassportElementError>,
}

/// Contains encrypted Telegram Passport data credentials
#[derive(Debug, Clone)]
pub struct EncryptedCredentials {
    /// The encrypted credentials
    pub data: String,
    /// The decrypted data hash
    pub hash: String,
    /// Secret for data decryption, encrypted with the service's public key
    pub secret: String,
}

/// Contains information about an encrypted Telegram Passport element; for bots only
#[derive(Debug, Clone)]
pub struct EncryptedPassportElement {
    /// Type of Telegram Passport element
    pub type_: PassportElementType,
    /// Encrypted JSON-encoded data about the user
    pub data: String,
    /// The front side of an identity document
    pub front_side: DatedFile,
    /// The reverse side of an identity document; may be null
    pub reverse_side: Option<DatedFile>,
    /// Selfie with the document; may be null
    pub selfie: Option<DatedFile>,
    /// List of files containing a certified English translation of the document
    pub translation: Vec<DatedFile>,
    /// List of attached files
    pub files: Vec<DatedFile>,
    /// Unencrypted data, phone number or email address
    pub value: String,
    /// Hash of the entire element
    pub hash: String,
}

/// The element contains an error in an unspecified place. The error will be considered resolved
/// when new data is added
#[derive(Debug, Clone)]
pub struct InputPassportElementErrorSourceUnspecified {
    /// Current hash of the entire element
    pub element_hash: String,
}

/// A data field contains an error. The error is considered resolved when the field's value changes
#[derive(Debug, Clone)]
pub struct InputPassportElementErrorSourceDataField {
    /// Field name
    pub field_name: String,
    /// Current data hash
    pub data_hash: String,
}

/// The front side of the document contains an error. The error is considered resolved when the file
/// with the front side of the document changes
#[derive(Debug, Clone)]
pub struct InputPassportElementErrorSourceFrontSide {
    /// Current hash of the file containing the front side
    pub file_hash: String,
}

/// The reverse side of the document contains an error. The error is considered resolved when the
/// file with the reverse side of the document changes
#[derive(Debug, Clone)]
pub struct InputPassportElementErrorSourceReverseSide {
    /// Current hash of the file containing the reverse side
    pub file_hash: String,
}

/// The selfie contains an error. The error is considered resolved when the file with the selfie
/// changes
#[derive(Debug, Clone)]
pub struct InputPassportElementErrorSourceSelfie {
    /// Current hash of the file containing the selfie
    pub file_hash: String,
}

/// One of the files containing the translation of the document contains an error. The error is
/// considered resolved when the file with the translation changes
#[derive(Debug, Clone)]
pub struct InputPassportElementErrorSourceTranslationFile {
    /// Current hash of the file containing the translation
    pub file_hash: String,
}

/// The translation of the document contains an error. The error is considered resolved when the
/// list of files changes
#[derive(Debug, Clone)]
pub struct InputPassportElementErrorSourceTranslationFiles {
    /// Current hashes of all files with the translation
    pub file_hashes: Vec<String>,
}

/// The file contains an error. The error is considered resolved when the file changes
#[derive(Debug, Clone)]
pub struct InputPassportElementErrorSourceFile {
    /// Current hash of the file which has the error
    pub file_hash: String,
}

/// The list of attached files contains an error. The error is considered resolved when the file
/// list changes
#[derive(Debug, Clone)]
pub struct InputPassportElementErrorSourceFiles {
    /// Current hashes of all attached files
    pub file_hashes: Vec<String>,
}

/// Contains the description of an error in a Telegram Passport element; for bots only
#[derive(Debug, Clone)]
pub struct InputPassportElementError {
    /// Type of Telegram Passport element that has the error
    pub type_: PassportElementType,
    /// Error message
    pub message: String,
    /// Error source
    pub source: InputPassportElementErrorSource,
}

/// An animation message (GIF-style).
#[derive(Debug, Clone)]
pub struct MessageAnimation {
    /// The animation description
    pub animation: Animation,
    /// Animation caption
    pub caption: FormattedText,
    /// True, if the animation thumbnail must be blurred and the animation must be shown only while
    /// tapped
    pub is_secret: bool,
}

/// An audio message
#[derive(Debug, Clone)]
pub struct MessageAudio {
    /// The audio description
    pub audio: Audio,
    /// Audio caption
    pub caption: FormattedText,
}

/// A document message (general file)
#[derive(Debug, Clone)]
pub struct MessageDocument {
    /// The document description
    pub document: Document,
    /// Document caption
    pub caption: FormattedText,
}

/// A photo message
#[derive(Debug, Clone)]
pub struct MessagePhoto {
    /// The photo description
    pub photo: Photo,
    /// Photo caption
    pub caption: FormattedText,
    /// True, if the photo must be blurred and must be shown only while tapped
    pub is_secret: bool,
}

/// An expired photo message (self-destructed after TTL has elapsed)
#[derive(Debug, Clone)]
pub struct MessageExpiredPhoto {}

/// A video message
#[derive(Debug, Clone)]
pub struct MessageVideo {
    /// The video description
    pub video: Video,
    /// Video caption
    pub caption: FormattedText,
    /// True, if the video thumbnail must be blurred and the video must be shown only while tapped
    pub is_secret: bool,
}

/// An expired video message (self-destructed after TTL has elapsed)
#[derive(Debug, Clone)]
pub struct MessageExpiredVideo {}

/// A video note message
#[derive(Debug, Clone)]
pub struct MessageVideoNote {
    /// The video note description
    pub video_note: VideoNote,
    /// True, if at least one of the recipients has viewed the video note
    pub is_viewed: bool,
    /// True, if the video note thumbnail must be blurred and the video note must be shown only
    /// while tapped
    pub is_secret: bool,
}

/// A voice note message
#[derive(Debug, Clone)]
pub struct MessageVoiceNote {
    /// The voice note description
    pub voice_note: VoiceNote,
    /// Voice note caption
    pub caption: FormattedText,
    /// True, if at least one of the recipients has listened to the voice note
    pub is_listened: bool,
}

/// A message with a user contact
#[derive(Debug, Clone)]
pub struct MessageContact {
    /// The contact description
    pub contact: Contact,
}

/// A message with a game
#[derive(Debug, Clone)]
pub struct MessageGame {
    /// The game description
    pub game: Game,
}

/// A message with a poll
#[derive(Debug, Clone)]
pub struct MessagePoll {
    /// The poll description
    pub poll: Poll,
}

/// A message with an invoice from a bot
#[derive(Debug, Clone)]
pub struct MessageInvoice {
    /// Product title
    pub title: String,
    /// Product description
    pub description: String,
    /// Product photo; may be null
    pub photo: Option<Photo>,
    /// Currency for the product price
    pub currency: String,
    /// Product total price in the minimal quantity of the currency
    pub total_amount: i64,
    /// Unique invoice bot start_parameter. To share an invoice use the URL
    /// https://t.me/{bot_username}?start={start_parameter}
    pub start_parameter: String,
    /// True, if the invoice is a test invoice
    pub is_test: bool,
    /// True, if the shipping address should be specified
    pub need_shipping_address: bool,
    /// The identifier of the message with the receipt, after the product has been purchased
    pub receipt_message_id: i64,
}

/// A message with information about an ended call
#[derive(Debug, Clone)]
pub struct MessageCall {
    /// Reason why the call was discarded
    pub discard_reason: CallDiscardReason,
    /// Call duration, in seconds
    pub duration: i32,
}

/// A newly created basic group
#[derive(Debug, Clone)]
pub struct MessageBasicGroupChatCreate {
    /// Title of the basic group
    pub title: String,
    /// User identifiers of members in the basic group
    pub member_user_ids: Vec<i32>,
}

/// A newly created supergroup or channel
#[derive(Debug, Clone)]
pub struct MessageSupergroupChatCreate {
    /// Title of the supergroup or channel
    pub title: String,
}

/// An updated chat title
#[derive(Debug, Clone)]
pub struct MessageChatChangeTitle {
    /// New chat title
    pub title: String,
}

/// An updated chat photo
#[derive(Debug, Clone)]
pub struct MessageChatChangePhoto {
    /// New chat photo
    pub photo: Photo,
}

/// A deleted chat photo
#[derive(Debug, Clone)]
pub struct MessageChatDeletePhoto {}

/// New chat members were added
#[derive(Debug, Clone)]
pub struct MessageChatAddMembers {
    /// User identifiers of the new members
    pub member_user_ids: Vec<i32>,
}

/// A new member joined the chat by invite link
#[derive(Debug, Clone)]
pub struct MessageChatJoinByLink {}

/// A chat member was deleted
#[derive(Debug, Clone)]
pub struct MessageChatDeleteMember {
    /// User identifier of the deleted chat member
    pub user_id: i32,
}

/// A basic group was upgraded to a supergroup and was deactivated as the result
#[derive(Debug, Clone)]
pub struct MessageChatUpgradeTo {
    /// Identifier of the supergroup to which the basic group was upgraded
    pub supergroup_id: i32,
}

/// A supergroup has been created from a basic group
#[derive(Debug, Clone)]
pub struct MessageChatUpgradeFrom {
    /// Title of the newly created supergroup
    pub title: String,
    /// The identifier of the original basic group
    pub basic_group_id: i32,
}

/// A message has been pinned
#[derive(Debug, Clone)]
pub struct MessagePinMessage {
    /// Identifier of the pinned message, can be an identifier of a deleted message or 0
    pub message_id: i64,
}

/// A screenshot of a message in the chat has been taken
#[derive(Debug, Clone)]
pub struct MessageScreenshotTaken {}

/// The TTL (Time To Live) setting messages in a secret chat has been changed
#[derive(Debug, Clone)]
pub struct MessageChatSetTtl {
    /// New TTL
    pub ttl: i32,
}

/// A non-standard action has happened in the chat
#[derive(Debug, Clone)]
pub struct MessageCustomServiceAction {
    /// Message text to be shown in the chat
    pub text: String,
}

/// A new high score was achieved in a game
#[derive(Debug, Clone)]
pub struct MessageGameScore {
    /// Identifier of the message with the game, can be an identifier of a deleted message
    pub game_message_id: i64,
    /// Identifier of the game; may be different from the games presented in the message with the
    /// game
    pub game_id: i64,
    /// New score
    pub score: i32,
}

/// A payment has been completed
#[derive(Debug, Clone)]
pub struct MessagePaymentSuccessful {
    /// Identifier of the message with the corresponding invoice; can be an identifier of a deleted
    /// message
    pub invoice_message_id: i64,
    /// Currency for the price of the product
    pub currency: String,
    /// Total price for the product, in the minimal quantity of the currency
    pub total_amount: i64,
}

/// A payment has been completed; for bots only
#[derive(Debug, Clone)]
pub struct MessagePaymentSuccessfulBot {
    /// Identifier of the message with the corresponding invoice; can be an identifier of a deleted
    /// message
    pub invoice_message_id: i64,
    /// Currency for price of the product
    pub currency: String,
    /// Total price for the product, in the minimal quantity of the currency
    pub total_amount: i64,
    /// Invoice payload
    pub invoice_payload: String,
    /// Identifier of the shipping option chosen by the user; may be empty if not applicable
    pub shipping_option_id: String,
    /// Information about the order; may be null
    pub order_info: Option<OrderInfo>,
    /// Telegram payment identifier
    pub telegram_payment_charge_id: String,
    /// Provider payment identifier
    pub provider_payment_charge_id: String,
}

/// A contact has registered with Telegram
#[derive(Debug, Clone)]
pub struct MessageContactRegistered {}

/// The current user has connected a website by logging in using Telegram Login Widget on it
#[derive(Debug, Clone)]
pub struct MessageWebsiteConnected {
    /// Domain name of the connected website
    pub domain_name: String,
}

/// Telegram Passport data has been sent
#[derive(Debug, Clone)]
pub struct MessagePassportDataSent {
    /// List of Telegram Passport element types sent
    pub types: Vec<PassportElementType>,
}

/// Telegram Passport data has been received; for bots only
#[derive(Debug, Clone)]
pub struct MessagePassportDataReceived {
    /// List of received Telegram Passport elements
    pub elements: Vec<EncryptedPassportElement>,
    /// Encrypted data credentials
    pub credentials: EncryptedCredentials,
}

/// Message content that is not supported by the client
#[derive(Debug, Clone)]
pub struct MessageUnsupported {}

/// A mention of a user by their username
#[derive(Debug, Clone)]
pub struct TextEntityTypeMention {}

/// A hashtag text, beginning with "#"
#[derive(Debug, Clone)]
pub struct TextEntityTypeHashtag {}

/// A cashtag text, beginning with "$" and consisting of capital english letters (i.e. "$USD")
#[derive(Debug, Clone)]
pub struct TextEntityTypeCashtag {}

/// A bot command, beginning with "/". This shouldn't be highlighted if there are no bots in the
/// chat
#[derive(Debug, Clone)]
pub struct TextEntityTypeBotCommand {}

/// An HTTP URL
#[derive(Debug, Clone)]
pub struct TextEntityTypeUrl {}

/// An email address
#[derive(Debug, Clone)]
pub struct TextEntityTypeEmailAddress {}

/// A phone number
#[derive(Debug, Clone)]
pub struct TextEntityTypePhoneNumber {}

/// A bank card number. The getBankCardInfo method can be used to get information about the bank
/// card
#[derive(Debug, Clone)]
pub struct TextEntityTypeBankCardNumber {}

/// A bold text
#[derive(Debug, Clone)]
pub struct TextEntityTypeBold {}

/// An italic text
#[derive(Debug, Clone)]
pub struct TextEntityTypeItalic {}

/// An underlined text
#[derive(Debug, Clone)]
pub struct TextEntityTypeUnderline {}

/// A strikethrough text
#[derive(Debug, Clone)]
pub struct TextEntityTypeStrikethrough {}

/// Text that must be formatted as if inside a code HTML tag
#[derive(Debug, Clone)]
pub struct TextEntityTypeCode {}

/// Text that must be formatted as if inside a pre HTML tag
#[derive(Debug, Clone)]
pub struct TextEntityTypePre {}

/// Text that must be formatted as if inside pre, and code HTML tags
#[derive(Debug, Clone)]
pub struct TextEntityTypePreCode {
    /// Programming language of the code; as defined by the sender
    pub language: String,
}

/// A text description shown instead of a raw URL
#[derive(Debug, Clone)]
pub struct TextEntityTypeTextUrl {
    /// HTTP or tg:// URL to be opened when the link is clicked
    pub url: String,
}

/// A text shows instead of a raw mention of the user (e.g., when the user has no username)
#[derive(Debug, Clone)]
pub struct TextEntityTypeMentionName {
    /// Identifier of the mentioned user
    pub user_id: i32,
}

/// A thumbnail to be sent along with a file; should be in JPEG or WEBP format for stickers, and
/// less than 200 KB in size
#[derive(Debug, Clone)]
pub struct InputThumbnail {
    /// Thumbnail file to send. Sending thumbnails by file_id is currently not supported
    pub thumbnail: InputFile,
    /// Thumbnail width, usually shouldn't exceed 320. Use 0 if unknown
    pub width: i32,
    /// Thumbnail height, usually shouldn't exceed 320. Use 0 if unknown
    pub height: i32,
}

/// The message will be sent at the specified date
#[derive(Debug, Clone)]
pub struct MessageSchedulingStateSendAtDate {
    /// Date the message will be sent. The date must be within 367 days in the future
    pub send_date: i32,
}

/// The message will be sent when the peer will be online. Applicable to private chats only and when
/// the exact online status of the peer is known
#[derive(Debug, Clone)]
pub struct MessageSchedulingStateSendWhenOnline {}

/// Options to be used when a message is send
#[derive(Debug, Clone)]
pub struct SendMessageOptions {
    /// Pass true to disable notification for the message. Must be false if the message is sent to a
    /// secret chat
    pub disable_notification: bool,
    /// Pass true if the message is sent from the background
    pub from_background: bool,
    /// Message scheduling state. Messages sent to a secret chat, live location messages and
    /// self-destructing messages can't be scheduled
    pub scheduling_state: MessageSchedulingState,
}

/// A text message
#[derive(Debug, Clone)]
pub struct InputMessageText {
    /// Formatted text to be sent; 1-GetOption("message_text_length_max") characters. Only Bold,
    /// Italic, Underline, Strikethrough, Code, Pre, PreCode, TextUrl and MentionName entities are
    /// allowed to be specified manually
    pub text: FormattedText,
    /// True, if rich web page previews for URLs in the message text should be disabled
    pub disable_web_page_preview: bool,
    /// True, if a chat message draft should be deleted
    pub clear_draft: bool,
}

/// An animation message (GIF-style).
#[derive(Debug, Clone)]
pub struct InputMessageAnimation {
    /// Animation file to be sent
    pub animation: InputFile,
    /// Animation thumbnail, if available
    pub thumbnail: InputThumbnail,
    /// Duration of the animation, in seconds
    pub duration: i32,
    /// Width of the animation; may be replaced by the server
    pub width: i32,
    /// Height of the animation; may be replaced by the server
    pub height: i32,
    /// Animation caption; 0-GetOption("message_caption_length_max") characters
    pub caption: FormattedText,
}

/// An audio message
#[derive(Debug, Clone)]
pub struct InputMessageAudio {
    /// Audio file to be sent
    pub audio: InputFile,
    /// Thumbnail of the cover for the album, if available
    pub album_cover_thumbnail: InputThumbnail,
    /// Duration of the audio, in seconds; may be replaced by the server
    pub duration: i32,
    /// Title of the audio; 0-64 characters; may be replaced by the server
    pub title: String,
    /// Performer of the audio; 0-64 characters, may be replaced by the server
    pub performer: String,
    /// Audio caption; 0-GetOption("message_caption_length_max") characters
    pub caption: FormattedText,
}

/// A document message (general file)
#[derive(Debug, Clone)]
pub struct InputMessageDocument {
    /// Document to be sent
    pub document: InputFile,
    /// Document thumbnail, if available
    pub thumbnail: InputThumbnail,
    /// Document caption; 0-GetOption("message_caption_length_max") characters
    pub caption: FormattedText,
}

/// A photo message
#[derive(Debug, Clone)]
pub struct InputMessagePhoto {
    /// Photo to send
    pub photo: InputFile,
    /// Photo thumbnail to be sent, this is sent to the other party in secret chats only
    pub thumbnail: InputThumbnail,
    /// File identifiers of the stickers added to the photo, if applicable
    pub added_sticker_file_ids: Vec<i32>,
    /// Photo width
    pub width: i32,
    /// Photo height
    pub height: i32,
    /// Photo caption; 0-GetOption("message_caption_length_max") characters
    pub caption: FormattedText,
    /// Photo TTL (Time To Live), in seconds (0-60). A non-zero TTL can be specified only in private
    /// chats
    pub ttl: i32,
}

/// A sticker message
#[derive(Debug, Clone)]
pub struct InputMessageSticker {
    /// Sticker to be sent
    pub sticker: InputFile,
    /// Sticker thumbnail, if available
    pub thumbnail: InputThumbnail,
    /// Sticker width
    pub width: i32,
    /// Sticker height
    pub height: i32,
}

/// A video message
#[derive(Debug, Clone)]
pub struct InputMessageVideo {
    /// Video to be sent
    pub video: InputFile,
    /// Video thumbnail, if available
    pub thumbnail: InputThumbnail,
    /// File identifiers of the stickers added to the video, if applicable
    pub added_sticker_file_ids: Vec<i32>,
    /// Duration of the video, in seconds
    pub duration: i32,
    /// Video width
    pub width: i32,
    /// Video height
    pub height: i32,
    /// True, if the video should be tried to be streamed
    pub supports_streaming: bool,
    /// Video caption; 0-GetOption("message_caption_length_max") characters
    pub caption: FormattedText,
    /// Video TTL (Time To Live), in seconds (0-60). A non-zero TTL can be specified only in private
    /// chats
    pub ttl: i32,
}

/// A video note message
#[derive(Debug, Clone)]
pub struct InputMessageVideoNote {
    /// Video note to be sent
    pub video_note: InputFile,
    /// Video thumbnail, if available
    pub thumbnail: InputThumbnail,
    /// Duration of the video, in seconds
    pub duration: i32,
    /// Video width and height; must be positive and not greater than 640
    pub length: i32,
}

/// A voice note message
#[derive(Debug, Clone)]
pub struct InputMessageVoiceNote {
    /// Voice note to be sent
    pub voice_note: InputFile,
    /// Duration of the voice note, in seconds
    pub duration: i32,
    /// Waveform representation of the voice note, in 5-bit format
    pub waveform: String,
    /// Voice note caption; 0-GetOption("message_caption_length_max") characters
    pub caption: FormattedText,
}

/// A message containing a user contact
#[derive(Debug, Clone)]
pub struct InputMessageContact {
    /// Contact to send
    pub contact: Contact,
}

/// A dice message
#[derive(Debug, Clone)]
pub struct InputMessageDice {
    /// Emoji on which the dice throw animation is based
    pub emoji: String,
    /// True, if a chat message draft should be deleted
    pub clear_draft: bool,
}

/// A message with a game; not supported for channels or secret chats
#[derive(Debug, Clone)]
pub struct InputMessageGame {
    /// User identifier of the bot that owns the game
    pub bot_user_id: i32,
    /// Short name of the game
    pub game_short_name: String,
}

/// A message with an invoice; can be used only by bots and only in private chats
#[derive(Debug, Clone)]
pub struct InputMessageInvoice {
    /// Invoice
    pub invoice: Invoice,
    /// Product title; 1-32 characters
    pub title: String,
    /// Product description; 0-255 characters
    pub description: String,
    /// Product photo URL; optional
    pub photo_url: String,
    /// Product photo size
    pub photo_size: i32,
    /// Product photo width
    pub photo_width: i32,
    /// Product photo height
    pub photo_height: i32,
    /// The invoice payload
    pub payload: String,
    /// Payment provider token
    pub provider_token: String,
    /// JSON-encoded data about the invoice, which will be shared with the payment provider
    pub provider_data: String,
    /// Unique invoice bot start_parameter for the generation of this invoice
    pub start_parameter: String,
}

/// A message with a poll. Polls can't be sent to secret chats. Polls can be sent only to a private
/// chat with a bot
#[derive(Debug, Clone)]
pub struct InputMessagePoll {
    /// Poll question, 1-255 characters
    pub question: String,
    /// List of poll answer options, 2-10 strings 1-100 characters each
    pub options: Vec<String>,
    /// True, if the poll voters are anonymous. Non-anonymous polls can't be sent or forwarded to
    /// channels
    pub is_anonymous: bool,
    /// Type of the poll
    pub type_: PollType,
    /// Amount of time the poll will be active after creation, in seconds; for bots only
    pub open_period: Option<i32>,
    /// Point in time (Unix timestamp) when the poll will be automatically closed; for bots only
    pub close_date: Option<i32>,
    /// True, if the poll needs to be sent already closed; for bots only
    pub is_closed: Option<bool>,
}

/// A forwarded message
#[derive(Debug, Clone)]
pub struct InputMessageForwarded {
    /// Identifier for the chat this forwarded message came from
    pub from_chat_id: i64,
    /// Identifier of the message to forward
    pub message_id: i64,
    /// True, if a game message should be shared within a launched game; applies only to game
    /// messages
    pub in_game_share: bool,
    /// True, if content of the message needs to be copied without a link to the original message.
    /// Always true if the message is forwarded to a secret chat
    pub send_copy: bool,
    /// True, if media caption of the message copy needs to be removed. Ignored if send_copy is
    /// false
    pub remove_caption: bool,
}

/// Returns all found messages, no filter is applied
#[derive(Debug, Clone)]
pub struct SearchMessagesFilterEmpty {}

/// Returns only animation messages
#[derive(Debug, Clone)]
pub struct SearchMessagesFilterAnimation {}

/// Returns only audio messages
#[derive(Debug, Clone)]
pub struct SearchMessagesFilterAudio {}

/// Returns only document messages
#[derive(Debug, Clone)]
pub struct SearchMessagesFilterDocument {}

/// Returns only photo messages
#[derive(Debug, Clone)]
pub struct SearchMessagesFilterPhoto {}

/// Returns only video messages
#[derive(Debug, Clone)]
pub struct SearchMessagesFilterVideo {}

/// Returns only voice note messages
#[derive(Debug, Clone)]
pub struct SearchMessagesFilterVoiceNote {}

/// Returns only photo and video messages
#[derive(Debug, Clone)]
pub struct SearchMessagesFilterPhotoAndVideo {}

/// Returns only messages containing URLs
#[derive(Debug, Clone)]
pub struct SearchMessagesFilterUrl {}

/// Returns only messages containing chat photos
#[derive(Debug, Clone)]
pub struct SearchMessagesFilterChatPhoto {}

/// Returns only call messages
#[derive(Debug, Clone)]
pub struct SearchMessagesFilterCall {}

/// Returns only incoming call messages with missed/declined discard reasons
#[derive(Debug, Clone)]
pub struct SearchMessagesFilterMissedCall {}

/// Returns only video note messages
#[derive(Debug, Clone)]
pub struct SearchMessagesFilterVideoNote {}

/// Returns only voice and video note messages
#[derive(Debug, Clone)]
pub struct SearchMessagesFilterVoiceAndVideoNote {}

/// Returns only messages with mentions of the current user, or messages that are replies to their
/// messages
#[derive(Debug, Clone)]
pub struct SearchMessagesFilterMention {}

/// Returns only messages with unread mentions of the current user, or messages that are replies to
/// their messages. When using this filter the results can't be additionally filtered by a query or
/// by the sending user
#[derive(Debug, Clone)]
pub struct SearchMessagesFilterUnreadMention {}

/// Returns only failed to send messages. This filter can be used only if the message database is
/// used
#[derive(Debug, Clone)]
pub struct SearchMessagesFilterFailedToSend {}

/// The user is typing a message
#[derive(Debug, Clone)]
pub struct ChatActionTyping {}

/// The user is recording a video
#[derive(Debug, Clone)]
pub struct ChatActionRecordingVideo {}

/// The user is uploading a video
#[derive(Debug, Clone)]
pub struct ChatActionUploadingVideo {
    /// Upload progress, as a percentage
    pub progress: i32,
}

/// The user is recording a voice note
#[derive(Debug, Clone)]
pub struct ChatActionRecordingVoiceNote {}

/// The user is uploading a voice note
#[derive(Debug, Clone)]
pub struct ChatActionUploadingVoiceNote {
    /// Upload progress, as a percentage
    pub progress: i32,
}

/// The user is uploading a photo
#[derive(Debug, Clone)]
pub struct ChatActionUploadingPhoto {
    /// Upload progress, as a percentage
    pub progress: i32,
}

/// The user is uploading a document
#[derive(Debug, Clone)]
pub struct ChatActionUploadingDocument {
    /// Upload progress, as a percentage
    pub progress: i32,
}

/// The user is picking a location or venue to send
#[derive(Debug, Clone)]
pub struct ChatActionChoosingLocation {}

/// The user is picking a contact to send
#[derive(Debug, Clone)]
pub struct ChatActionChoosingContact {}

/// The user has started to play a game
#[derive(Debug, Clone)]
pub struct ChatActionStartPlayingGame {}

/// The user is recording a video note
#[derive(Debug, Clone)]
pub struct ChatActionRecordingVideoNote {}

/// The user is uploading a video note
#[derive(Debug, Clone)]
pub struct ChatActionUploadingVideoNote {
    /// Upload progress, as a percentage
    pub progress: i32,
}

/// The user has cancelled the previous action
#[derive(Debug, Clone)]
pub struct ChatActionCancel {}

/// The user status was never changed
#[derive(Debug, Clone)]
pub struct UserStatusEmpty {}

/// The user is online
#[derive(Debug, Clone)]
pub struct UserStatusOnline {
    /// Point in time (Unix timestamp) when the user's online status will expire
    pub expires: i32,
}

/// The user is offline
#[derive(Debug, Clone)]
pub struct UserStatusOffline {
    /// Point in time (Unix timestamp) when the user was last online
    pub was_online: i32,
}

/// The user was online recently
#[derive(Debug, Clone)]
pub struct UserStatusRecently {}

/// The user is offline, but was online last week
#[derive(Debug, Clone)]
pub struct UserStatusLastWeek {}

/// The user is offline, but was online last month
#[derive(Debug, Clone)]
pub struct UserStatusLastMonth {}

/// Represents a list of emoji
#[derive(Debug, Clone)]
pub struct Emojis {
    /// List of emojis
    pub emojis: Vec<String>,
}

/// The call wasn't discarded, or the reason is unknown
#[derive(Debug, Clone)]
pub struct CallDiscardReasonEmpty {}

/// The call was ended before the conversation started. It was cancelled by the caller or missed by
/// the other party
#[derive(Debug, Clone)]
pub struct CallDiscardReasonMissed {}

/// The call was ended before the conversation started. It was declined by the other party
#[derive(Debug, Clone)]
pub struct CallDiscardReasonDeclined {}

/// The call was ended during the conversation because the users were disconnected
#[derive(Debug, Clone)]
pub struct CallDiscardReasonDisconnected {}

/// The call was ended because one of the parties hung up
#[derive(Debug, Clone)]
pub struct CallDiscardReasonHungUp {}

/// Specifies the supported call protocols
#[derive(Debug, Clone)]
pub struct CallProtocol {
    /// True, if UDP peer-to-peer connections are supported
    pub udp_p2p: bool,
    /// True, if connection through UDP reflectors is supported
    pub udp_reflector: bool,
    /// The minimum supported API layer; use 65
    pub min_layer: i32,
    /// The maximum supported API layer; use 65
    pub max_layer: i32,
    /// List of supported libtgvoip versions
    pub library_versions: Vec<String>,
}

/// Describes the address of UDP reflectors
#[derive(Debug, Clone)]
pub struct CallConnection {
    /// Reflector identifier
    pub id: i64,
    /// IPv4 reflector address
    pub ip: String,
    /// IPv6 reflector address
    pub ipv6: String,
    /// Reflector port number
    pub port: i32,
    /// Connection peer tag
    pub peer_tag: String,
}

/// Contains the call identifier
#[derive(Debug, Clone)]
pub struct CallId {
    /// Call identifier
    pub id: i32,
}

/// The call is pending, waiting to be accepted by a user
#[derive(Debug, Clone)]
pub struct CallStatePending {
    /// True, if the call has already been created by the server
    pub is_created: bool,
    /// True, if the call has already been received by the other party
    pub is_received: bool,
}

/// The call has been answered and encryption keys are being exchanged
#[derive(Debug, Clone)]
pub struct CallStateExchangingKeys {}

/// The call is ready to use
#[derive(Debug, Clone)]
pub struct CallStateReady {
    /// Call protocols supported by the peer
    pub protocol: CallProtocol,
    /// Available UDP reflectors
    pub connections: Vec<CallConnection>,
    /// A JSON-encoded call config
    pub config: String,
    /// Call encryption key
    pub encryption_key: String,
    /// Encryption key emojis fingerprint
    pub emojis: Vec<String>,
    /// True, if peer-to-peer connection is allowed by users privacy settings
    pub allow_p2p: bool,
}

/// The call is hanging up after discardCall has been called
#[derive(Debug, Clone)]
pub struct CallStateHangingUp {}

/// The call has ended successfully
#[derive(Debug, Clone)]
pub struct CallStateDiscarded {
    /// The reason, why the call has ended
    pub reason: CallDiscardReason,
    /// True, if the call rating should be sent to the server
    pub need_rating: bool,
    /// True, if the call debug information should be sent to the server
    pub need_debug_information: bool,
}

/// The call has ended with an error
#[derive(Debug, Clone)]
pub struct CallStateError {
    /// Error. An error with the code 4005000 will be returned if an outgoing call is missed because
    /// of an expired timeout
    pub error: Error,
}

/// The user heard their own voice
#[derive(Debug, Clone)]
pub struct CallProblemEcho {}

/// The user heard background noise
#[derive(Debug, Clone)]
pub struct CallProblemNoise {}

/// The other side kept disappearing
#[derive(Debug, Clone)]
pub struct CallProblemInterruptions {}

/// The speech was distorted
#[derive(Debug, Clone)]
pub struct CallProblemDistortedSpeech {}

/// The user couldn't hear the other side
#[derive(Debug, Clone)]
pub struct CallProblemSilentLocal {}

/// The other side couldn't hear the user
#[derive(Debug, Clone)]
pub struct CallProblemSilentRemote {}

/// The call ended unexpectedly
#[derive(Debug, Clone)]
pub struct CallProblemDropped {}

/// Describes a call
#[derive(Debug, Clone)]
pub struct Call {
    /// Call identifier, not persistent
    pub id: i32,
    /// Peer user identifier
    pub user_id: i32,
    /// True, if the call is outgoing
    pub is_outgoing: bool,
    /// Call state
    pub state: CallState,
}

/// Contains settings for the authentication of the user's phone number
#[derive(Debug, Clone)]
pub struct PhoneNumberAuthenticationSettings {
    /// Pass true if the authentication code may be sent via flash call to the specified phone
    /// number
    pub allow_flash_call: bool,
    /// Pass true if the authenticated phone number is used on the current device
    pub is_current_phone_number: bool,
    /// For official applications only. True, if the app can use Android SMS Retriever API (requires
    /// Google Play Services >= 10.2) to automatically receive the authentication code from the SMS.
    /// See https://developers.google.com/identity/sms-retriever/ for more details
    pub allow_sms_retriever_api: bool,
}

/// Represents a list of animations
#[derive(Debug, Clone)]
pub struct Animations {
    /// List of animations
    pub animations: Vec<Animation>,
}

/// Represents the result of an ImportContacts request
#[derive(Debug, Clone)]
pub struct ImportedContacts {
    /// User identifiers of the imported contacts in the same order as they were specified in the
    /// request; 0 if the contact is not yet a registered user
    pub user_ids: Vec<i32>,
    /// The number of users that imported the corresponding contact; 0 for already registered users
    /// or if unavailable
    pub importer_count: Vec<i32>,
}

/// Contains an HTTP URL
#[derive(Debug, Clone)]
pub struct HttpUrl {
    /// The URL
    pub url: String,
}

/// Represents a game
#[derive(Debug, Clone)]
pub struct InputInlineQueryResultGame {
    /// Unique identifier of the query result
    pub id: String,
    /// Short name of the game
    pub game_short_name: String,
    /// Message reply markup. Must be of type replyMarkupInlineKeyboard or null
    pub reply_markup: Option<ReplyMarkup>,
}

/// Represents a link to an article or web page
#[derive(Debug, Clone)]
pub struct InlineQueryResultArticle {
    /// Unique identifier of the query result
    pub id: String,
    /// URL of the result, if it exists
    pub url: String,
    /// True, if the URL must be not shown
    pub hide_url: bool,
    /// Title of the result
    pub title: String,
    /// A short description of the result
    pub description: String,
    /// Result thumbnail; may be null
    pub thumbnail: Option<PhotoSize>,
}

/// Represents a user contact
#[derive(Debug, Clone)]
pub struct InlineQueryResultContact {
    /// Unique identifier of the query result
    pub id: String,
    /// A user contact
    pub contact: Contact,
    /// Result thumbnail; may be null
    pub thumbnail: Option<PhotoSize>,
}

/// Represents information about a game
#[derive(Debug, Clone)]
pub struct InlineQueryResultGame {
    /// Unique identifier of the query result
    pub id: String,
    /// Game result
    pub game: Game,
}

/// Represents an animation file
#[derive(Debug, Clone)]
pub struct InlineQueryResultAnimation {
    /// Unique identifier of the query result
    pub id: String,
    /// Animation file
    pub animation: Animation,
    /// Animation title
    pub title: String,
}

/// Represents an audio file
#[derive(Debug, Clone)]
pub struct InlineQueryResultAudio {
    /// Unique identifier of the query result
    pub id: String,
    /// Audio file
    pub audio: Audio,
}

/// Represents a document
#[derive(Debug, Clone)]
pub struct InlineQueryResultDocument {
    /// Unique identifier of the query result
    pub id: String,
    /// Document
    pub document: Document,
    /// Document title
    pub title: String,
    /// Document description
    pub description: String,
}

/// Represents a photo
#[derive(Debug, Clone)]
pub struct InlineQueryResultPhoto {
    /// Unique identifier of the query result
    pub id: String,
    /// Photo
    pub photo: Photo,
    /// Title of the result, if known
    pub title: String,
    /// A short description of the result, if known
    pub description: String,
}

/// Represents a video
#[derive(Debug, Clone)]
pub struct InlineQueryResultVideo {
    /// Unique identifier of the query result
    pub id: String,
    /// Video
    pub video: Video,
    /// Title of the video
    pub title: String,
    /// Description of the video
    pub description: String,
}

/// Represents a voice note
#[derive(Debug, Clone)]
pub struct InlineQueryResultVoiceNote {
    /// Unique identifier of the query result
    pub id: String,
    /// Voice note
    pub voice_note: VoiceNote,
    /// Title of the voice note
    pub title: String,
}

/// The payload from a general callback button
#[derive(Debug, Clone)]
pub struct CallbackQueryPayloadData {
    /// Data that was attached to the callback button
    pub data: String,
}

/// The payload from a game callback button
#[derive(Debug, Clone)]
pub struct CallbackQueryPayloadGame {
    /// A short name of the game that was attached to the callback button
    pub game_short_name: String,
}

/// Contains a bot's answer to a callback query
#[derive(Debug, Clone)]
pub struct CallbackQueryAnswer {
    /// Text of the answer
    pub text: String,
    /// True, if an alert should be shown to the user instead of a toast notification
    pub show_alert: bool,
    /// URL to be opened
    pub url: String,
}

/// Contains the result of a custom request
#[derive(Debug, Clone)]
pub struct CustomRequestResult {
    /// A JSON-serialized result
    pub result: String,
}

/// Contains one row of the game high score table
#[derive(Debug, Clone)]
pub struct GameHighScore {
    /// Position in the high score table
    pub position: i32,
    /// User identifier
    pub user_id: i32,
    /// User score
    pub score: i32,
}

/// Contains a list of game high scores
#[derive(Debug, Clone)]
pub struct GameHighScores {
    /// A list of game high scores
    pub scores: Vec<GameHighScore>,
}

/// A message was unpinned
#[derive(Debug, Clone)]
pub struct ChatEventMessageUnpinned {}

/// A new member joined the chat
#[derive(Debug, Clone)]
pub struct ChatEventMemberJoined {}

/// A member left the chat
#[derive(Debug, Clone)]
pub struct ChatEventMemberLeft {}

/// A new chat member was invited
#[derive(Debug, Clone)]
pub struct ChatEventMemberInvited {
    /// New member user identifier
    pub user_id: i32,
    /// New member status
    pub status: ChatMemberStatus,
}

/// A chat member has gained/lost administrator status, or the list of their administrator
/// privileges has changed
#[derive(Debug, Clone)]
pub struct ChatEventMemberPromoted {
    /// Chat member user identifier
    pub user_id: i32,
    /// Previous status of the chat member
    pub old_status: ChatMemberStatus,
    /// New status of the chat member
    pub new_status: ChatMemberStatus,
}

/// A chat member was restricted/unrestricted or banned/unbanned, or the list of their restrictions
/// has changed
#[derive(Debug, Clone)]
pub struct ChatEventMemberRestricted {
    /// Chat member user identifier
    pub user_id: i32,
    /// Previous status of the chat member
    pub old_status: ChatMemberStatus,
    /// New status of the chat member
    pub new_status: ChatMemberStatus,
}

/// The chat title was changed
#[derive(Debug, Clone)]
pub struct ChatEventTitleChanged {
    /// Previous chat title
    pub old_title: String,
    /// New chat title
    pub new_title: String,
}

/// The chat permissions was changed
#[derive(Debug, Clone)]
pub struct ChatEventPermissionsChanged {
    /// Previous chat permissions
    pub old_permissions: ChatPermissions,
    /// New chat permissions
    pub new_permissions: ChatPermissions,
}

/// The chat description was changed
#[derive(Debug, Clone)]
pub struct ChatEventDescriptionChanged {
    /// Previous chat description
    pub old_description: String,
    /// New chat description
    pub new_description: String,
}

/// The chat username was changed
#[derive(Debug, Clone)]
pub struct ChatEventUsernameChanged {
    /// Previous chat username
    pub old_username: String,
    /// New chat username
    pub new_username: String,
}

/// The chat photo was changed
#[derive(Debug, Clone)]
pub struct ChatEventPhotoChanged {
    /// Previous chat photo value; may be null
    pub old_photo: Option<Photo>,
    /// New chat photo value; may be null
    pub new_photo: Option<Photo>,
}

/// The can_invite_users permission of a supergroup chat was toggled
#[derive(Debug, Clone)]
pub struct ChatEventInvitesToggled {
    /// New value of can_invite_users permission
    pub can_invite_users: bool,
}

/// The linked chat of a supergroup was changed
#[derive(Debug, Clone)]
pub struct ChatEventLinkedChatChanged {
    /// Previous supergroup linked chat identifier
    pub old_linked_chat_id: i64,
    /// New supergroup linked chat identifier
    pub new_linked_chat_id: i64,
}

/// The slow_mode_delay setting of a supergroup was changed
#[derive(Debug, Clone)]
pub struct ChatEventSlowModeDelayChanged {
    /// Previous value of slow_mode_delay
    pub old_slow_mode_delay: i32,
    /// New value of slow_mode_delay
    pub new_slow_mode_delay: i32,
}

/// The sign_messages setting of a channel was toggled
#[derive(Debug, Clone)]
pub struct ChatEventSignMessagesToggled {
    /// New value of sign_messages
    pub sign_messages: bool,
}

/// The supergroup sticker set was changed
#[derive(Debug, Clone)]
pub struct ChatEventStickerSetChanged {
    /// Previous identifier of the chat sticker set; 0 if none
    pub old_sticker_set_id: i64,
    /// New identifier of the chat sticker set; 0 if none
    pub new_sticker_set_id: i64,
}

/// The is_all_history_available setting of a supergroup was toggled
#[derive(Debug, Clone)]
pub struct ChatEventIsAllHistoryAvailableToggled {
    /// New value of is_all_history_available
    pub is_all_history_available: bool,
}

/// Represents a set of filters used to obtain a chat event log
#[derive(Debug, Clone)]
pub struct ChatEventLogFilters {
    /// True, if message edits should be returned
    pub message_edits: bool,
    /// True, if message deletions should be returned
    pub message_deletions: bool,
    /// True, if pin/unpin events should be returned
    pub message_pins: bool,
    /// True, if members joining events should be returned
    pub member_joins: bool,
    /// True, if members leaving events should be returned
    pub member_leaves: bool,
    /// True, if invited member events should be returned
    pub member_invites: bool,
    /// True, if member promotion/demotion events should be returned
    pub member_promotions: bool,
    /// True, if member restricted/unrestricted/banned/unbanned events should be returned
    pub member_restrictions: bool,
    /// True, if changes in chat information should be returned
    pub info_changes: bool,
    /// True, if changes in chat settings should be returned
    pub setting_changes: bool,
}

/// An ordinary language pack string
#[derive(Debug, Clone)]
pub struct LanguagePackStringValueOrdinary {
    /// String value
    pub value: String,
}

/// A language pack string which has different forms based on the number of some object it mentions.
/// See https://www.unicode.org/cldr/charts/latest/supplemental/language_plural_rules.html for more
/// info
#[derive(Debug, Clone)]
pub struct LanguagePackStringValuePluralized {
    /// Value for zero objects
    pub zero_value: String,
    /// Value for one object
    pub one_value: String,
    /// Value for two objects
    pub two_value: String,
    /// Value for few objects
    pub few_value: String,
    /// Value for many objects
    pub many_value: String,
    /// Default value
    pub other_value: String,
}

/// A deleted language pack string, the value should be taken from the built-in english language
/// pack
#[derive(Debug, Clone)]
pub struct LanguagePackStringValueDeleted {}

/// Represents one language pack string
#[derive(Debug, Clone)]
pub struct LanguagePackString {
    /// String key
    pub key: String,
    /// String value
    pub value: LanguagePackStringValue,
}

/// Contains a list of language pack strings
#[derive(Debug, Clone)]
pub struct LanguagePackStrings {
    /// A list of language pack strings
    pub strings: Vec<LanguagePackString>,
}

/// Contains information about a language pack
#[derive(Debug, Clone)]
pub struct LanguagePackInfo {
    /// Unique language pack identifier
    pub id: String,
    /// Identifier of a base language pack; may be empty. If a string is missed in the language
    /// pack, then it should be fetched from base language pack. Unsupported in custom language
    /// packs
    pub base_language_pack_id: String,
    /// Language name
    pub name: String,
    /// Name of the language in that language
    pub native_name: String,
    /// A language code to be used to apply plural forms. See
    /// https://www.unicode.org/cldr/charts/latest/supplemental/language_plural_rules.html for more
    /// info
    pub plural_code: String,
    /// True, if the language pack is official
    pub is_official: bool,
    /// True, if the language pack strings are RTL
    pub is_rtl: bool,
    /// True, if the language pack is a beta language pack
    pub is_beta: bool,
    /// True, if the language pack is installed by the current user
    pub is_installed: bool,
    /// Total number of non-deleted strings from the language pack
    pub total_string_count: i32,
    /// Total number of translated strings from the language pack
    pub translated_string_count: i32,
    /// Total number of non-deleted strings from the language pack available locally
    pub local_string_count: i32,
    /// Link to language translation interface; empty for custom local language packs
    pub translation_url: String,
}

/// Contains information about the current localization target
#[derive(Debug, Clone)]
pub struct LocalizationTargetInfo {
    /// List of available language packs for this application
    pub language_packs: Vec<LanguagePackInfo>,
}

/// A token for Firebase Cloud Messaging
#[derive(Debug, Clone)]
pub struct DeviceTokenFirebaseCloudMessaging {
    /// Device registration token; may be empty to de-register a device
    pub token: String,
    /// True, if push notifications should be additionally encrypted
    pub encrypt: bool,
}

/// A token for Apple Push Notification service
#[derive(Debug, Clone)]
pub struct DeviceTokenApplePush {
    /// Device token; may be empty to de-register a device
    pub device_token: String,
    /// True, if App Sandbox is enabled
    pub is_app_sandbox: bool,
}

/// A token for Apple Push Notification service VoIP notifications
#[derive(Debug, Clone)]
pub struct DeviceTokenApplePushVoIP {
    /// Device token; may be empty to de-register a device
    pub device_token: String,
    /// True, if App Sandbox is enabled
    pub is_app_sandbox: bool,
    /// True, if push notifications should be additionally encrypted
    pub encrypt: bool,
}

/// A token for Windows Push Notification Services
#[derive(Debug, Clone)]
pub struct DeviceTokenWindowsPush {
    /// The access token that will be used to send notifications; may be empty to de-register a
    /// device
    pub access_token: String,
}

/// A token for Microsoft Push Notification Service
#[derive(Debug, Clone)]
pub struct DeviceTokenMicrosoftPush {
    /// Push notification channel URI; may be empty to de-register a device
    pub channel_uri: String,
}

/// A token for Microsoft Push Notification Service VoIP channel
#[derive(Debug, Clone)]
pub struct DeviceTokenMicrosoftPushVoIP {
    /// Push notification channel URI; may be empty to de-register a device
    pub channel_uri: String,
}

/// A token for web Push API
#[derive(Debug, Clone)]
pub struct DeviceTokenWebPush {
    /// Absolute URL exposed by the push service where the application server can send push
    /// messages; may be empty to de-register a device
    pub endpoint: String,
    /// Base64url-encoded P-256 elliptic curve Diffie-Hellman public key
    pub p256dh_base64url: String,
    /// Base64url-encoded authentication secret
    pub auth_base64url: String,
}

/// A token for Simple Push API for Firefox OS
#[derive(Debug, Clone)]
pub struct DeviceTokenSimplePush {
    /// Absolute URL exposed by the push service where the application server can send push
    /// messages; may be empty to de-register a device
    pub endpoint: String,
}

/// A token for Ubuntu Push Client service
#[derive(Debug, Clone)]
pub struct DeviceTokenUbuntuPush {
    /// Token; may be empty to de-register a device
    pub token: String,
}

/// A token for BlackBerry Push Service
#[derive(Debug, Clone)]
pub struct DeviceTokenBlackBerryPush {
    /// Token; may be empty to de-register a device
    pub token: String,
}

/// A token for Tizen Push Service
#[derive(Debug, Clone)]
pub struct DeviceTokenTizenPush {
    /// Push service registration identifier; may be empty to de-register a device
    pub reg_id: String,
}

/// Contains a globally unique push receiver identifier, which can be used to identify which account
/// has received a push notification
#[derive(Debug, Clone)]
pub struct PushReceiverId {
    /// The globally unique identifier of push notification subscription
    pub id: i64,
}

/// Describes a solid fill of a background
#[derive(Debug, Clone)]
pub struct BackgroundFillSolid {
    /// A color of the background in the RGB24 format
    pub color: i32,
}

/// Describes a gradient fill of a background
#[derive(Debug, Clone)]
pub struct BackgroundFillGradient {
    /// A top color of the background in the RGB24 format
    pub top_color: i32,
    /// A bottom color of the background in the RGB24 format
    pub bottom_color: i32,
    /// Clockwise rotation angle of the gradient, in degrees; 0-359. Should be always divisible by
    /// 45
    pub rotation_angle: i32,
}

/// A wallpaper in JPEG format
#[derive(Debug, Clone)]
pub struct BackgroundTypeWallpaper {
    /// True, if the wallpaper must be downscaled to fit in 450x450 square and then box-blurred with
    /// radius 12
    pub is_blurred: bool,
    /// True, if the background needs to be slightly moved when device is tilted
    pub is_moving: bool,
}

/// A PNG or TGV (gzipped subset of SVG with MIME type "application/x-tgwallpattern") pattern to be
/// combined with the background fill chosen by the user
#[derive(Debug, Clone)]
pub struct BackgroundTypePattern {
    /// Description of the background fill
    pub fill: BackgroundFill,
    /// Intensity of the pattern when it is shown above the filled background, 0-100
    pub intensity: i32,
    /// True, if the background needs to be slightly moved when device is tilted
    pub is_moving: bool,
}

/// A filled background
#[derive(Debug, Clone)]
pub struct BackgroundTypeFill {
    /// Description of the background fill
    pub fill: BackgroundFill,
}

/// Describes a chat background
#[derive(Debug, Clone)]
pub struct Background {
    /// Unique background identifier
    pub id: i64,
    /// True, if this is one of default backgrounds
    pub is_default: bool,
    /// True, if the background is dark and is recommended to be used with dark theme
    pub is_dark: bool,
    /// Unique background name
    pub name: String,
    /// Document with the background; may be null. Null only for filled backgrounds
    pub document: Option<Document>,
    /// Type of the background
    pub type_: BackgroundType,
}

/// Contains a list of backgrounds
#[derive(Debug, Clone)]
pub struct Backgrounds {
    /// A list of backgrounds
    pub backgrounds: Vec<Background>,
}

/// A background from a local file
#[derive(Debug, Clone)]
pub struct InputBackgroundLocal {
    /// Background file to use. Only inputFileLocal and inputFileGenerated are supported. The file
    /// must be in JPEG format for wallpapers and in PNG format for patterns
    pub background: InputFile,
}

/// A background from the server
#[derive(Debug, Clone)]
pub struct InputBackgroundRemote {
    /// The background identifier
    pub background_id: i64,
}

/// Contains a list of hashtags
#[derive(Debug, Clone)]
pub struct Hashtags {
    /// A list of hashtags
    pub hashtags: Vec<String>,
}

/// The session can be used
#[derive(Debug, Clone)]
pub struct CanTransferOwnershipResultOk {}

/// The 2-step verification needs to be enabled first
#[derive(Debug, Clone)]
pub struct CanTransferOwnershipResultPasswordNeeded {}

/// The 2-step verification was enabled recently, user needs to wait
#[derive(Debug, Clone)]
pub struct CanTransferOwnershipResultPasswordTooFresh {
    /// Time left before the session can be used to transfer ownership of a chat, in seconds
    pub retry_after: i32,
}

/// The session was created recently, user needs to wait
#[derive(Debug, Clone)]
pub struct CanTransferOwnershipResultSessionTooFresh {
    /// Time left before the session can be used to transfer ownership of a chat, in seconds
    pub retry_after: i32,
}

/// The username can be set
#[derive(Debug, Clone)]
pub struct CheckChatUsernameResultOk {}

/// The username is invalid
#[derive(Debug, Clone)]
pub struct CheckChatUsernameResultUsernameInvalid {}

/// The username is occupied
#[derive(Debug, Clone)]
pub struct CheckChatUsernameResultUsernameOccupied {}

/// The user has too much chats with username, one of them should be made private first
#[derive(Debug, Clone)]
pub struct CheckChatUsernameResultPublicChatsTooMuch {}

/// The user can't be a member of a public supergroup
#[derive(Debug, Clone)]
pub struct CheckChatUsernameResultPublicGroupsUnavailable {}

/// A general message with hidden content
#[derive(Debug, Clone)]
pub struct PushMessageContentHidden {
    /// True, if the message is a pinned message with the specified content
    pub is_pinned: bool,
}

/// An animation message (GIF-style).
#[derive(Debug, Clone)]
pub struct PushMessageContentAnimation {
    /// Message content; may be null
    pub animation: Option<Animation>,
    /// Animation caption
    pub caption: String,
    /// True, if the message is a pinned message with the specified content
    pub is_pinned: bool,
}

/// An audio message
#[derive(Debug, Clone)]
pub struct PushMessageContentAudio {
    /// Message content; may be null
    pub audio: Option<Audio>,
    /// True, if the message is a pinned message with the specified content
    pub is_pinned: bool,
}

/// A message with a user contact
#[derive(Debug, Clone)]
pub struct PushMessageContentContact {
    /// Contact's name
    pub name: String,
    /// True, if the message is a pinned message with the specified content
    pub is_pinned: bool,
}

/// A contact has registered with Telegram
#[derive(Debug, Clone)]
pub struct PushMessageContentContactRegistered {}

/// A document message (a general file)
#[derive(Debug, Clone)]
pub struct PushMessageContentDocument {
    /// Message content; may be null
    pub document: Option<Document>,
    /// True, if the message is a pinned message with the specified content
    pub is_pinned: bool,
}

/// A message with a game
#[derive(Debug, Clone)]
pub struct PushMessageContentGame {
    /// Game title, empty for pinned game message
    pub title: String,
    /// True, if the message is a pinned message with the specified content
    pub is_pinned: bool,
}

/// A new high score was achieved in a game
#[derive(Debug, Clone)]
pub struct PushMessageContentGameScore {
    /// Game title, empty for pinned message
    pub title: String,
    /// New score, 0 for pinned message
    pub score: i32,
    /// True, if the message is a pinned message with the specified content
    pub is_pinned: bool,
}

/// A message with an invoice from a bot
#[derive(Debug, Clone)]
pub struct PushMessageContentInvoice {
    /// Product price
    pub price: String,
    /// True, if the message is a pinned message with the specified content
    pub is_pinned: bool,
}

/// A message with a location
#[derive(Debug, Clone)]
pub struct PushMessageContentLocation {
    /// True, if the location is live
    pub is_live: bool,
    /// True, if the message is a pinned message with the specified content
    pub is_pinned: bool,
}

/// A photo message
#[derive(Debug, Clone)]
pub struct PushMessageContentPhoto {
    /// Message content; may be null
    pub photo: Option<Photo>,
    /// Photo caption
    pub caption: String,
    /// True, if the photo is secret
    pub is_secret: bool,
    /// True, if the message is a pinned message with the specified content
    pub is_pinned: bool,
}

/// A message with a poll
#[derive(Debug, Clone)]
pub struct PushMessageContentPoll {
    /// Poll question
    pub question: String,
    /// True, if the poll is regular and not in quiz mode
    pub is_regular: bool,
    /// True, if the message is a pinned message with the specified content
    pub is_pinned: bool,
}

/// A screenshot of a message in the chat has been taken
#[derive(Debug, Clone)]
pub struct PushMessageContentScreenshotTaken {}

/// A text message
#[derive(Debug, Clone)]
pub struct PushMessageContentText {
    /// Message text
    pub text: String,
    /// True, if the message is a pinned message with the specified content
    pub is_pinned: bool,
}

/// A video message
#[derive(Debug, Clone)]
pub struct PushMessageContentVideo {
    /// Message content; may be null
    pub video: Option<Video>,
    /// Video caption
    pub caption: String,
    /// True, if the video is secret
    pub is_secret: bool,
    /// True, if the message is a pinned message with the specified content
    pub is_pinned: bool,
}

/// A video note message
#[derive(Debug, Clone)]
pub struct PushMessageContentVideoNote {
    /// Message content; may be null
    pub video_note: Option<VideoNote>,
    /// True, if the message is a pinned message with the specified content
    pub is_pinned: bool,
}

/// A voice note message
#[derive(Debug, Clone)]
pub struct PushMessageContentVoiceNote {
    /// Message content; may be null
    pub voice_note: Option<VoiceNote>,
    /// True, if the message is a pinned message with the specified content
    pub is_pinned: bool,
}

/// A newly created basic group
#[derive(Debug, Clone)]
pub struct PushMessageContentBasicGroupChatCreate {}

/// New chat members were invited to a group
#[derive(Debug, Clone)]
pub struct PushMessageContentChatAddMembers {
    /// Name of the added member
    pub member_name: String,
    /// True, if the current user was added to the group
    pub is_current_user: bool,
    /// True, if the user has returned to the group themself
    pub is_returned: bool,
}

/// A chat photo was edited
#[derive(Debug, Clone)]
pub struct PushMessageContentChatChangePhoto {}

/// A chat title was edited
#[derive(Debug, Clone)]
pub struct PushMessageContentChatChangeTitle {
    /// New chat title
    pub title: String,
}

/// A chat member was deleted
#[derive(Debug, Clone)]
pub struct PushMessageContentChatDeleteMember {
    /// Name of the deleted member
    pub member_name: String,
    /// True, if the current user was deleted from the group
    pub is_current_user: bool,
    /// True, if the user has left the group themself
    pub is_left: bool,
}

/// A new member joined the chat by invite link
#[derive(Debug, Clone)]
pub struct PushMessageContentChatJoinByLink {}

/// A forwarded messages
#[derive(Debug, Clone)]
pub struct PushMessageContentMessageForwards {
    /// Number of forwarded messages
    pub total_count: i32,
}

/// A media album
#[derive(Debug, Clone)]
pub struct PushMessageContentMediaAlbum {
    /// Number of messages in the album
    pub total_count: i32,
    /// True, if the album has at least one photo
    pub has_photos: bool,
    /// True, if the album has at least one video
    pub has_videos: bool,
}

/// New secret chat was created
#[derive(Debug, Clone)]
pub struct NotificationTypeNewSecretChat {}

/// New call was received
#[derive(Debug, Clone)]
pub struct NotificationTypeNewCall {
    /// Call identifier
    pub call_id: i32,
}

/// A group containing notifications of type notificationTypeNewMessage and
/// notificationTypeNewPushMessage with ordinary unread messages
#[derive(Debug, Clone)]
pub struct NotificationGroupTypeMessages {}

/// A group containing notifications of type notificationTypeNewMessage and
/// notificationTypeNewPushMessage with unread mentions of the current user, replies to their
/// messages, or a pinned message
#[derive(Debug, Clone)]
pub struct NotificationGroupTypeMentions {}

/// A group containing a notification of type notificationTypeNewSecretChat
#[derive(Debug, Clone)]
pub struct NotificationGroupTypeSecretChat {}

/// A group containing notifications of type notificationTypeNewCall
#[derive(Debug, Clone)]
pub struct NotificationGroupTypeCalls {}

/// Represents a boolean option
#[derive(Debug, Clone)]
pub struct OptionValueBoolean {
    /// The value of the option
    pub value: bool,
}

/// Represents an unknown option or an option which has a default value
#[derive(Debug, Clone)]
pub struct OptionValueEmpty {}

/// Represents an integer option
#[derive(Debug, Clone)]
pub struct OptionValueInteger {
    /// The value of the option
    pub value: i32,
}

/// Represents a string option
#[derive(Debug, Clone)]
pub struct OptionValueString {
    /// The value of the option
    pub value: String,
}

/// Represents a null JSON value
#[derive(Debug, Clone)]
pub struct JsonValueNull {}

/// Represents a boolean JSON value
#[derive(Debug, Clone)]
pub struct JsonValueBoolean {
    /// The value
    pub value: bool,
}

/// Represents a string JSON value
#[derive(Debug, Clone)]
pub struct JsonValueString {
    /// The value
    pub value: String,
}

/// A rule to allow all users to do something
#[derive(Debug, Clone)]
pub struct UserPrivacySettingRuleAllowAll {}

/// A rule to allow all of a user's contacts to do something
#[derive(Debug, Clone)]
pub struct UserPrivacySettingRuleAllowContacts {}

/// A rule to allow certain specified users to do something
#[derive(Debug, Clone)]
pub struct UserPrivacySettingRuleAllowUsers {
    /// The user identifiers, total number of users in all rules must not exceed 1000
    pub user_ids: Vec<i32>,
}

/// A rule to allow all members of certain specified basic groups and supergroups to doing something
#[derive(Debug, Clone)]
pub struct UserPrivacySettingRuleAllowChatMembers {
    /// The chat identifiers, total number of chats in all rules must not exceed 20
    pub chat_ids: Vec<i64>,
}

/// A rule to restrict all users from doing something
#[derive(Debug, Clone)]
pub struct UserPrivacySettingRuleRestrictAll {}

/// A rule to restrict all contacts of a user from doing something
#[derive(Debug, Clone)]
pub struct UserPrivacySettingRuleRestrictContacts {}

/// A rule to restrict all specified users from doing something
#[derive(Debug, Clone)]
pub struct UserPrivacySettingRuleRestrictUsers {
    /// The user identifiers, total number of users in all rules must not exceed 1000
    pub user_ids: Vec<i32>,
}

/// A rule to restrict all members of specified basic groups and supergroups from doing something
#[derive(Debug, Clone)]
pub struct UserPrivacySettingRuleRestrictChatMembers {
    /// The chat identifiers, total number of chats in all rules must not exceed 20
    pub chat_ids: Vec<i64>,
}

/// A list of privacy rules. Rules are matched in the specified order. The first matched rule
/// defines the privacy setting for a given user. If no rule matches, the action is not allowed
#[derive(Debug, Clone)]
pub struct UserPrivacySettingRules {
    /// A list of rules
    pub rules: Vec<UserPrivacySettingRule>,
}

/// A privacy setting for managing whether the user's online status is visible
#[derive(Debug, Clone)]
pub struct UserPrivacySettingShowStatus {}

/// A privacy setting for managing whether the user's profile photo is visible
#[derive(Debug, Clone)]
pub struct UserPrivacySettingShowProfilePhoto {}

/// A privacy setting for managing whether a link to the user's account is included in forwarded
/// messages
#[derive(Debug, Clone)]
pub struct UserPrivacySettingShowLinkInForwardedMessages {}

/// A privacy setting for managing whether the user's phone number is visible
#[derive(Debug, Clone)]
pub struct UserPrivacySettingShowPhoneNumber {}

/// A privacy setting for managing whether the user can be invited to chats
#[derive(Debug, Clone)]
pub struct UserPrivacySettingAllowChatInvites {}

/// A privacy setting for managing whether the user can be called
#[derive(Debug, Clone)]
pub struct UserPrivacySettingAllowCalls {}

/// A privacy setting for managing whether peer-to-peer connections can be used for calls
#[derive(Debug, Clone)]
pub struct UserPrivacySettingAllowPeerToPeerCalls {}

/// A privacy setting for managing whether the user can be found by their phone number. Checked only
/// if the phone number is not known to the other user. Can be set only to "Allow contacts" or
/// "Allow all"
#[derive(Debug, Clone)]
pub struct UserPrivacySettingAllowFindingByPhoneNumber {}

/// Contains information about the period of inactivity after which the current user's account will
/// automatically be deleted
#[derive(Debug, Clone)]
pub struct AccountTtl {
    /// Number of days of inactivity before the account will be flagged for deletion; should range
    /// from 30-366 days
    pub days: i32,
}

/// Contains information about one session in a Telegram application used by the current user.
/// Sessions should be shown to the user in the returned order
#[derive(Debug, Clone)]
pub struct Session {
    /// Session identifier
    pub id: i64,
    /// True, if this session is the current session
    pub is_current: bool,
    /// True, if a password is needed to complete authorization of the session
    pub is_password_pending: bool,
    /// Telegram API identifier, as provided by the application
    pub api_id: i32,
    /// Name of the application, as provided by the application
    pub application_name: String,
    /// The version of the application, as provided by the application
    pub application_version: String,
    /// True, if the application is an official application or uses the api_id of an official
    /// application
    pub is_official_application: bool,
    /// Model of the device the application has been run or is running on, as provided by the
    /// application
    pub device_model: String,
    /// Operating system the application has been run or is running on, as provided by the
    /// application
    pub platform: String,
    /// Version of the operating system the application has been run or is running on, as provided
    /// by the application
    pub system_version: String,
    /// Point in time (Unix timestamp) when the user has logged in
    pub log_in_date: i32,
    /// Point in time (Unix timestamp) when the session was last used
    pub last_active_date: i32,
    /// IP address from which the session was created, in human-readable format
    pub ip: String,
    /// A two-letter country code for the country from which the session was created, based on the
    /// IP address
    pub country: String,
    /// Region code from which the session was created, based on the IP address
    pub region: String,
}

/// Contains a list of sessions
#[derive(Debug, Clone)]
pub struct Sessions {
    /// List of sessions
    pub sessions: Vec<Session>,
}

/// Contains information about one website the current user is logged in with Telegram
#[derive(Debug, Clone)]
pub struct ConnectedWebsite {
    /// Website identifier
    pub id: i64,
    /// The domain name of the website
    pub domain_name: String,
    /// User identifier of a bot linked with the website
    pub bot_user_id: i32,
    /// The version of a browser used to log in
    pub browser: String,
    /// Operating system the browser is running on
    pub platform: String,
    /// Point in time (Unix timestamp) when the user was logged in
    pub log_in_date: i32,
    /// Point in time (Unix timestamp) when obtained authorization was last used
    pub last_active_date: i32,
    /// IP address from which the user was logged in, in human-readable format
    pub ip: String,
    /// Human-readable description of a country and a region, from which the user was logged in,
    /// based on the IP address
    pub location: String,
}

/// Contains a list of websites the current user is logged in with Telegram
#[derive(Debug, Clone)]
pub struct ConnectedWebsites {
    /// List of connected websites
    pub websites: Vec<ConnectedWebsite>,
}

/// The chat contains spam messages
#[derive(Debug, Clone)]
pub struct ChatReportReasonSpam {}

/// The chat promotes violence
#[derive(Debug, Clone)]
pub struct ChatReportReasonViolence {}

/// The chat contains pornographic messages
#[derive(Debug, Clone)]
pub struct ChatReportReasonPornography {}

/// The chat has child abuse related content
#[derive(Debug, Clone)]
pub struct ChatReportReasonChildAbuse {}

/// The chat contains copyrighted content
#[derive(Debug, Clone)]
pub struct ChatReportReasonCopyright {}

/// The location-based chat is unrelated to its stated location
#[derive(Debug, Clone)]
pub struct ChatReportReasonUnrelatedLocation {}

/// A custom reason provided by the user
#[derive(Debug, Clone)]
pub struct ChatReportReasonCustom {
    /// Report text
    pub text: String,
}

/// Contains a public HTTPS link to a message in a supergroup or channel with a username
#[derive(Debug, Clone)]
pub struct PublicMessageLink {
    /// Message link
    pub link: String,
    /// HTML-code for embedding the message
    pub html: String,
}

/// Contains a part of a file
#[derive(Debug, Clone)]
pub struct FilePart {
    /// File bytes
    pub data: String,
}

/// The data is not a file
#[derive(Debug, Clone)]
pub struct FileTypeNone {}

/// The file is an animation
#[derive(Debug, Clone)]
pub struct FileTypeAnimation {}

/// The file is an audio file
#[derive(Debug, Clone)]
pub struct FileTypeAudio {}

/// The file is a document
#[derive(Debug, Clone)]
pub struct FileTypeDocument {}

/// The file is a photo
#[derive(Debug, Clone)]
pub struct FileTypePhoto {}

/// The file is a profile photo
#[derive(Debug, Clone)]
pub struct FileTypeProfilePhoto {}

/// The file was sent to a secret chat (the file type is not known to the server)
#[derive(Debug, Clone)]
pub struct FileTypeSecret {}

/// The file is a thumbnail of a file from a secret chat
#[derive(Debug, Clone)]
pub struct FileTypeSecretThumbnail {}

/// The file is a file from Secure storage used for storing Telegram Passport files
#[derive(Debug, Clone)]
pub struct FileTypeSecure {}

/// The file is a sticker
#[derive(Debug, Clone)]
pub struct FileTypeSticker {}

/// The file is a thumbnail of another file
#[derive(Debug, Clone)]
pub struct FileTypeThumbnail {}

/// The file type is not yet known
#[derive(Debug, Clone)]
pub struct FileTypeUnknown {}

/// The file is a video
#[derive(Debug, Clone)]
pub struct FileTypeVideo {}

/// The file is a video note
#[derive(Debug, Clone)]
pub struct FileTypeVideoNote {}

/// The file is a voice note
#[derive(Debug, Clone)]
pub struct FileTypeVoiceNote {}

/// The file is a wallpaper or a background pattern
#[derive(Debug, Clone)]
pub struct FileTypeWallpaper {}

/// Contains the storage usage statistics for a specific file type
#[derive(Debug, Clone)]
pub struct StorageStatisticsByFileType {
    /// File type
    pub file_type: FileType,
    /// Total size of the files
    pub size: i64,
    /// Total number of files
    pub count: i32,
}

/// Contains the storage usage statistics for a specific chat
#[derive(Debug, Clone)]
pub struct StorageStatisticsByChat {
    /// Chat identifier; 0 if none
    pub chat_id: i64,
    /// Total size of the files in the chat
    pub size: i64,
    /// Total number of files in the chat
    pub count: i32,
    /// Statistics split by file types
    pub by_file_type: Vec<StorageStatisticsByFileType>,
}

/// Contains the exact storage usage statistics split by chats and file type
#[derive(Debug, Clone)]
pub struct StorageStatistics {
    /// Total size of files
    pub size: i64,
    /// Total number of files
    pub count: i32,
    /// Statistics split by chats
    pub by_chat: Vec<StorageStatisticsByChat>,
}

/// Contains approximate storage usage statistics, excluding files of unknown file type
#[derive(Debug, Clone)]
pub struct StorageStatisticsFast {
    /// Approximate total size of files
    pub files_size: i64,
    /// Approximate number of files
    pub file_count: i32,
    /// Size of the database
    pub database_size: i64,
    /// Size of the language pack database
    pub language_pack_database_size: i64,
    /// Size of the TDLib internal log
    pub log_size: i64,
}

/// Contains database statistics
#[derive(Debug, Clone)]
pub struct DatabaseStatistics {
    /// Database statistics in an unspecified human-readable format
    pub statistics: String,
}

/// The network is not available
#[derive(Debug, Clone)]
pub struct NetworkTypeNone {}

/// A mobile network
#[derive(Debug, Clone)]
pub struct NetworkTypeMobile {}

/// A mobile roaming network
#[derive(Debug, Clone)]
pub struct NetworkTypeMobileRoaming {}

/// A Wi-Fi network
#[derive(Debug, Clone)]
pub struct NetworkTypeWiFi {}

/// A different network type (e.g., Ethernet network)
#[derive(Debug, Clone)]
pub struct NetworkTypeOther {}

/// Contains information about the total amount of data that was used to send and receive files
#[derive(Debug, Clone)]
pub struct NetworkStatisticsEntryFile {
    /// Type of the file the data is part of
    pub file_type: FileType,
    /// Type of the network the data was sent through. Call setNetworkType to maintain the actual
    /// network type
    pub network_type: NetworkType,
    /// Total number of bytes sent
    pub sent_bytes: i64,
    /// Total number of bytes received
    pub received_bytes: i64,
}

/// Contains auto-download settings
#[derive(Debug, Clone)]
pub struct AutoDownloadSettings {
    /// True, if the auto-download is enabled
    pub is_auto_download_enabled: bool,
    /// The maximum size of a photo file to be auto-downloaded
    pub max_photo_file_size: i32,
    /// The maximum size of a video file to be auto-downloaded
    pub max_video_file_size: i32,
    /// The maximum size of other file types to be auto-downloaded
    pub max_other_file_size: i32,
    /// The maximum suggested bitrate for uploaded videos
    pub video_upload_bitrate: i32,
    /// True, if the beginning of videos needs to be preloaded for instant playback
    pub preload_large_videos: bool,
    /// True, if the next audio track needs to be preloaded while the user is listening to an audio
    /// file
    pub preload_next_audio: bool,
    /// True, if "use less data for calls" option needs to be enabled
    pub use_less_data_for_calls: bool,
}

/// Contains auto-download settings presets for the user
#[derive(Debug, Clone)]
pub struct AutoDownloadSettingsPresets {
    /// Preset with lowest settings; supposed to be used by default when roaming
    pub low: AutoDownloadSettings,
    /// Preset with medium settings; supposed to be used by default when using mobile data
    pub medium: AutoDownloadSettings,
    /// Preset with highest settings; supposed to be used by default when connected on Wi-Fi
    pub high: AutoDownloadSettings,
}

/// Currently waiting for the network to become available. Use setNetworkType to change the
/// available network type
#[derive(Debug, Clone)]
pub struct ConnectionStateWaitingForNetwork {}

/// Currently establishing a connection with a proxy server
#[derive(Debug, Clone)]
pub struct ConnectionStateConnectingToProxy {}

/// Currently establishing a connection to the Telegram servers
#[derive(Debug, Clone)]
pub struct ConnectionStateConnecting {}

/// Downloading data received while the client was offline
#[derive(Debug, Clone)]
pub struct ConnectionStateUpdating {}

/// There is a working connection to the Telegram servers
#[derive(Debug, Clone)]
pub struct ConnectionStateReady {}

/// A category containing frequently used private chats with non-bot users
#[derive(Debug, Clone)]
pub struct TopChatCategoryUsers {}

/// A category containing frequently used private chats with bot users
#[derive(Debug, Clone)]
pub struct TopChatCategoryBots {}

/// A category containing frequently used basic groups and supergroups
#[derive(Debug, Clone)]
pub struct TopChatCategoryGroups {}

/// A category containing frequently used channels
#[derive(Debug, Clone)]
pub struct TopChatCategoryChannels {}

/// A category containing frequently used chats with inline bots sorted by their usage in inline
/// mode
#[derive(Debug, Clone)]
pub struct TopChatCategoryInlineBots {}

/// A category containing frequently used chats used for calls
#[derive(Debug, Clone)]
pub struct TopChatCategoryCalls {}

/// A category containing frequently used chats used to forward messages
#[derive(Debug, Clone)]
pub struct TopChatCategoryForwardChats {}

/// A URL linking to a user
#[derive(Debug, Clone)]
pub struct TMeUrlTypeUser {
    /// Identifier of the user
    pub user_id: i32,
}

/// A URL linking to a public supergroup or channel
#[derive(Debug, Clone)]
pub struct TMeUrlTypeSupergroup {
    /// Identifier of the supergroup or channel
    pub supergroup_id: i64,
}

/// A chat invite link
#[derive(Debug, Clone)]
pub struct TMeUrlTypeChatInvite {
    /// Chat invite link info
    pub info: ChatInviteLinkInfo,
}

/// A URL linking to a sticker set
#[derive(Debug, Clone)]
pub struct TMeUrlTypeStickerSet {
    /// Identifier of the sticker set
    pub sticker_set_id: i64,
}

/// Represents a URL linking to an internal Telegram entity
#[derive(Debug, Clone)]
pub struct TMeUrl {
    /// URL
    pub url: String,
    /// Type of the URL
    pub type_: TMeUrlType,
}

/// Contains a list of t.me URLs
#[derive(Debug, Clone)]
pub struct TMeUrls {
    /// List of URLs
    pub urls: Vec<TMeUrl>,
}

/// Contains a counter
#[derive(Debug, Clone)]
pub struct Count {
    /// Count
    pub count: i32,
}

/// Contains some text
#[derive(Debug, Clone)]
pub struct Text {
    /// Text
    pub text: String,
}

/// Contains information about a tg:// deep link
#[derive(Debug, Clone)]
pub struct DeepLinkInfo {
    /// Text to be shown to the user
    pub text: FormattedText,
    /// True, if user should be asked to update the application
    pub need_update_application: bool,
}

/// The text uses Markdown-style formatting
#[derive(Debug, Clone)]
pub struct TextParseModeMarkdown {
    /// Version of the parser: 0 or 1 - Telegram Bot API "Markdown" parse mode, 2 - Telegram Bot API
    /// "MarkdownV2" parse mode
    pub version: i32,
}

/// The text uses HTML-style formatting. The same as Telegram Bot API "HTML" parse mode
#[derive(Debug, Clone)]
pub struct TextParseModeHTML {}

/// A SOCKS5 proxy server
#[derive(Debug, Clone)]
pub struct ProxyTypeSocks5 {
    /// Username for logging in; may be empty
    pub username: String,
    /// Password for logging in; may be empty
    pub password: String,
}

/// A HTTP transparent proxy server
#[derive(Debug, Clone)]
pub struct ProxyTypeHttp {
    /// Username for logging in; may be empty
    pub username: String,
    /// Password for logging in; may be empty
    pub password: String,
    /// Pass true if the proxy supports only HTTP requests and doesn't support transparent TCP
    /// connections via HTTP CONNECT method
    pub http_only: bool,
}

/// An MTProto proxy server
#[derive(Debug, Clone)]
pub struct ProxyTypeMtproto {
    /// The proxy's secret in hexadecimal encoding
    pub secret: String,
}

/// Contains information about a proxy server
#[derive(Debug, Clone)]
pub struct Proxy {
    /// Unique identifier of the proxy
    pub id: i32,
    /// Proxy server IP address
    pub server: String,
    /// Proxy server port
    pub port: i32,
    /// Point in time (Unix timestamp) when the proxy was last used; 0 if never
    pub last_used_date: i32,
    /// True, if the proxy is enabled now
    pub is_enabled: bool,
    /// Type of the proxy
    pub type_: ProxyType,
}

/// Represents a list of proxy servers
#[derive(Debug, Clone)]
pub struct Proxies {
    /// List of proxy servers
    pub proxies: Vec<Proxy>,
}

/// An animated sticker in TGS format
#[derive(Debug, Clone)]
pub struct InputStickerAnimated {
    /// File with the animated sticker. Only local or uploaded within a week files are supported.
    /// See https://core.telegram.org/animated_stickers#technical-requirements for technical
    /// requirements
    pub sticker: InputFile,
    /// Emojis corresponding to the sticker
    pub emojis: String,
}

/// Represents a date range
#[derive(Debug, Clone)]
pub struct DateRange {
    /// Point in time (Unix timestamp) at which the date range begins
    pub start_date: i32,
    /// Point in time (Unix timestamp) at which the date range ends
    pub end_date: i32,
}

/// A graph data
#[derive(Debug, Clone)]
pub struct StatisticsGraphData {
    /// Graph data in JSON format
    pub json_data: String,
    /// If non-empty, a token which can be used to receive a zoomed in graph
    pub zoom_token: String,
}

/// The graph data to be asynchronously loaded through getChatStatisticsGraph
#[derive(Debug, Clone)]
pub struct StatisticsGraphAsync {
    /// The token to use for data loading
    pub token: String,
}

/// An error message to be shown to the user instead of the graph
#[derive(Debug, Clone)]
pub struct StatisticsGraphError {
    /// The error message
    pub error_message: String,
}

/// Contains statistics about interactions with a message
#[derive(Debug, Clone)]
pub struct ChatStatisticsMessageInteractionCounters {
    /// Message identifier
    pub message_id: i64,
    /// Number of times the message was viewed
    pub view_count: i32,
    /// Number of times the message was forwarded
    pub forward_count: i32,
}

/// The user authorization state has changed
#[derive(Debug, Clone)]
pub struct UpdateAuthorizationState {
    /// New authorization state
    pub authorization_state: AuthorizationState,
}

/// A request to send a message has reached the Telegram server. This doesn't mean that the message
/// will be sent successfully or even that the send message request will be processed. This update
/// will be sent only if the option "use_quick_ack" is set to true. This update may be sent multiple
/// times for the same message
#[derive(Debug, Clone)]
pub struct UpdateMessageSendAcknowledged {
    /// The chat identifier of the sent message
    pub chat_id: i64,
    /// A temporary message identifier
    pub message_id: i64,
}

/// A message was edited. Changes in the message content will come in a separate
/// updateMessageContent
#[derive(Debug, Clone)]
pub struct UpdateMessageEdited {
    /// Chat identifier
    pub chat_id: i64,
    /// Message identifier
    pub message_id: i64,
    /// Point in time (Unix timestamp) when the message was edited
    pub edit_date: i32,
    /// New message reply markup; may be null
    pub reply_markup: Option<ReplyMarkup>,
}

/// The view count of the message has changed
#[derive(Debug, Clone)]
pub struct UpdateMessageViews {
    /// Chat identifier
    pub chat_id: i64,
    /// Message identifier
    pub message_id: i64,
    /// New value of the view count
    pub views: i32,
}

/// The message content was opened. Updates voice note messages to "listened", video note messages
/// to "viewed" and starts the TTL timer for self-destructing messages
#[derive(Debug, Clone)]
pub struct UpdateMessageContentOpened {
    /// Chat identifier
    pub chat_id: i64,
    /// Message identifier
    pub message_id: i64,
}

/// A message with an unread mention was read
#[derive(Debug, Clone)]
pub struct UpdateMessageMentionRead {
    /// Chat identifier
    pub chat_id: i64,
    /// Message identifier
    pub message_id: i64,
    /// The new number of unread mention messages left in the chat
    pub unread_mention_count: i32,
}

/// A message with a live location was viewed. When the update is received, the client is supposed
/// to update the live location
#[derive(Debug, Clone)]
pub struct UpdateMessageLiveLocationViewed {
    /// Identifier of the chat with the live location message
    pub chat_id: i64,
    /// Identifier of the message with live location
    pub message_id: i64,
}

/// The list to which the chat belongs was changed. This update is guaranteed to be sent only when
/// chat.order == 0 and the current or the new chat list is null
#[derive(Debug, Clone)]
pub struct UpdateChatChatList {
    /// Chat identifier
    pub chat_id: i64,
    /// The new chat's chat list; may be null
    pub chat_list: Option<ChatList>,
}

/// The title of a chat was changed
#[derive(Debug, Clone)]
pub struct UpdateChatTitle {
    /// Chat identifier
    pub chat_id: i64,
    /// The new chat title
    pub title: String,
}

/// A chat photo was changed
#[derive(Debug, Clone)]
pub struct UpdateChatPhoto {
    /// Chat identifier
    pub chat_id: i64,
    /// The new chat photo; may be null
    pub photo: Option<ChatPhoto>,
}

/// Chat permissions was changed
#[derive(Debug, Clone)]
pub struct UpdateChatPermissions {
    /// Chat identifier
    pub chat_id: i64,
    /// The new chat permissions
    pub permissions: ChatPermissions,
}

/// The order of the chat in the chat list has changed. Instead of this update
/// updateChatLastMessage, updateChatIsPinned, updateChatDraftMessage, or updateChatSource might be
/// sent
#[derive(Debug, Clone)]
pub struct UpdateChatOrder {
    /// Chat identifier
    pub chat_id: i64,
    /// New value of the order
    pub order: i64,
}

/// A chat was pinned or unpinned
#[derive(Debug, Clone)]
pub struct UpdateChatIsPinned {
    /// Chat identifier
    pub chat_id: i64,
    /// New value of is_pinned
    pub is_pinned: bool,
    /// New value of the chat order
    pub order: i64,
}

/// A chat was marked as unread or was read
#[derive(Debug, Clone)]
pub struct UpdateChatIsMarkedAsUnread {
    /// Chat identifier
    pub chat_id: i64,
    /// New value of is_marked_as_unread
    pub is_marked_as_unread: bool,
}

/// A chat's source in the chat list has changed
#[derive(Debug, Clone)]
pub struct UpdateChatSource {
    /// Chat identifier
    pub chat_id: i64,
    /// New chat's source; may be null
    pub source: Option<ChatSource>,
    /// New value of chat order
    pub order: i64,
}

/// A chat's has_scheduled_messages field has changed
#[derive(Debug, Clone)]
pub struct UpdateChatHasScheduledMessages {
    /// Chat identifier
    pub chat_id: i64,
    /// New value of has_scheduled_messages
    pub has_scheduled_messages: bool,
}

/// The value of the default disable_notification parameter, used when a message is sent to the
/// chat, was changed
#[derive(Debug, Clone)]
pub struct UpdateChatDefaultDisableNotification {
    /// Chat identifier
    pub chat_id: i64,
    /// The new default_disable_notification value
    pub default_disable_notification: bool,
}

/// Incoming messages were read or number of unread messages has been changed
#[derive(Debug, Clone)]
pub struct UpdateChatReadInbox {
    /// Chat identifier
    pub chat_id: i64,
    /// Identifier of the last read incoming message
    pub last_read_inbox_message_id: i64,
    /// The number of unread messages left in the chat
    pub unread_count: i32,
}

/// Outgoing messages were read
#[derive(Debug, Clone)]
pub struct UpdateChatReadOutbox {
    /// Chat identifier
    pub chat_id: i64,
    /// Identifier of last read outgoing message
    pub last_read_outbox_message_id: i64,
}

/// The chat unread_mention_count has changed
#[derive(Debug, Clone)]
pub struct UpdateChatUnreadMentionCount {
    /// Chat identifier
    pub chat_id: i64,
    /// The number of unread mention messages left in the chat
    pub unread_mention_count: i32,
}

/// Notification settings for a chat were changed
#[derive(Debug, Clone)]
pub struct UpdateChatNotificationSettings {
    /// Chat identifier
    pub chat_id: i64,
    /// The new notification settings
    pub notification_settings: ChatNotificationSettings,
}

/// Notification settings for some type of chats were updated
#[derive(Debug, Clone)]
pub struct UpdateScopeNotificationSettings {
    /// Types of chats for which notification settings were updated
    pub scope: NotificationSettingsScope,
    /// The new notification settings
    pub notification_settings: ScopeNotificationSettings,
}

/// The chat action bar was changed
#[derive(Debug, Clone)]
pub struct UpdateChatActionBar {
    /// Chat identifier
    pub chat_id: i64,
    /// The new value of the action bar; may be null
    pub action_bar: Option<ChatActionBar>,
}

/// The chat pinned message was changed
#[derive(Debug, Clone)]
pub struct UpdateChatPinnedMessage {
    /// Chat identifier
    pub chat_id: i64,
    /// The new identifier of the pinned message; 0 if there is no pinned message in the chat
    pub pinned_message_id: i64,
}

/// The default chat reply markup was changed. Can occur because new messages with reply markup were
/// received or because an old reply markup was hidden by the user
#[derive(Debug, Clone)]
pub struct UpdateChatReplyMarkup {
    /// Chat identifier
    pub chat_id: i64,
    /// Identifier of the message from which reply markup needs to be used; 0 if there is no default
    /// custom reply markup in the chat
    pub reply_markup_message_id: i64,
}

/// The number of online group members has changed. This update with non-zero count is sent only for
/// currently opened chats. There is no guarantee that it will be sent just after the count has
/// changed
#[derive(Debug, Clone)]
pub struct UpdateChatOnlineMemberCount {
    /// Identifier of the chat
    pub chat_id: i64,
    /// New number of online members in the chat, or 0 if unknown
    pub online_member_count: i32,
}

/// Describes whether there are some pending notification updates. Can be used to prevent
/// application from killing, while there are some pending notifications
#[derive(Debug, Clone)]
pub struct UpdateHavePendingNotifications {
    /// True, if there are some delayed notification updates, which will be sent soon
    pub have_delayed_notifications: bool,
    /// True, if there can be some yet unreceived notifications, which are being fetched from the
    /// server
    pub have_unreceived_notifications: bool,
}

/// Some messages were deleted
#[derive(Debug, Clone)]
pub struct UpdateDeleteMessages {
    /// Chat identifier
    pub chat_id: i64,
    /// Identifiers of the deleted messages
    pub message_ids: Vec<i64>,
    /// True, if the messages are permanently deleted by a user (as opposed to just becoming
    /// inaccessible)
    pub is_permanent: bool,
    /// True, if the messages are deleted only from the cache and can possibly be retrieved again in
    /// the future
    pub from_cache: bool,
}

/// User activity in the chat has changed
#[derive(Debug, Clone)]
pub struct UpdateUserChatAction {
    /// Chat identifier
    pub chat_id: i64,
    /// Identifier of a user performing an action
    pub user_id: i32,
    /// The action description
    pub action: ChatAction,
}

/// The user went online or offline
#[derive(Debug, Clone)]
pub struct UpdateUserStatus {
    /// User identifier
    pub user_id: i32,
    /// New status of the user
    pub status: UserStatus,
}

/// Some data of a user has changed. This update is guaranteed to come before the user identifier is
/// returned to the client
#[derive(Debug, Clone)]
pub struct UpdateUser {
    /// New data about the user
    pub user: User,
}

/// Some data of a basic group has changed. This update is guaranteed to come before the basic group
/// identifier is returned to the client
#[derive(Debug, Clone)]
pub struct UpdateBasicGroup {
    /// New data about the group
    pub basic_group: BasicGroup,
}

/// Some data of a supergroup or a channel has changed. This update is guaranteed to come before the
/// supergroup identifier is returned to the client
#[derive(Debug, Clone)]
pub struct UpdateSupergroup {
    /// New data about the supergroup
    pub supergroup: Supergroup,
}

/// Some data of a secret chat has changed. This update is guaranteed to come before the secret chat
/// identifier is returned to the client
#[derive(Debug, Clone)]
pub struct UpdateSecretChat {
    /// New data about the secret chat
    pub secret_chat: SecretChat,
}

/// Some data from userFullInfo has been changed
#[derive(Debug, Clone)]
pub struct UpdateUserFullInfo {
    /// User identifier
    pub user_id: i32,
    /// New full information about the user
    pub user_full_info: UserFullInfo,
}

/// Some data from basicGroupFullInfo has been changed
#[derive(Debug, Clone)]
pub struct UpdateBasicGroupFullInfo {
    /// Identifier of a basic group
    pub basic_group_id: i32,
    /// New full information about the group
    pub basic_group_full_info: BasicGroupFullInfo,
}

/// Information about a file was updated
#[derive(Debug, Clone)]
pub struct UpdateFile {
    /// New data about the file
    pub file: File,
}

/// The file generation process needs to be started by the client
#[derive(Debug, Clone)]
pub struct UpdateFileGenerationStart {
    /// Unique identifier for the generation process
    pub generation_id: i64,
    /// The path to a file from which a new file is generated; may be empty
    pub original_path: String,
    /// The path to a file that should be created and where the new file should be generated
    pub destination_path: String,
    /// String specifying the conversion applied to the original file. If conversion is "#url#" than
    /// original_path contains an HTTP/HTTPS URL of a file, which should be downloaded by the client
    pub conversion: String,
}

/// File generation is no longer needed
#[derive(Debug, Clone)]
pub struct UpdateFileGenerationStop {
    /// Unique identifier for the generation process
    pub generation_id: i64,
}

/// New call was created or information about a call was updated
#[derive(Debug, Clone)]
pub struct UpdateCall {
    /// New data about a call
    pub call: Call,
}

/// Some privacy setting rules have been changed
#[derive(Debug, Clone)]
pub struct UpdateUserPrivacySettingRules {
    /// The privacy setting
    pub setting: UserPrivacySetting,
    /// New privacy rules
    pub rules: UserPrivacySettingRules,
}

/// Number of unread messages in a chat list has changed. This update is sent only if the message
/// database is used
#[derive(Debug, Clone)]
pub struct UpdateUnreadMessageCount {
    /// The chat list with changed number of unread messages
    pub chat_list: ChatList,
    /// Total number of unread messages
    pub unread_count: i32,
    /// Total number of unread messages in unmuted chats
    pub unread_unmuted_count: i32,
}

/// Number of unread chats, i.e. with unread messages or marked as unread, has changed. This update
/// is sent only if the message database is used
#[derive(Debug, Clone)]
pub struct UpdateUnreadChatCount {
    /// The chat list with changed number of unread messages
    pub chat_list: ChatList,
    /// Approximate total number of chats in the chat list
    pub total_count: i32,
    /// Total number of unread chats
    pub unread_count: i32,
    /// Total number of unread unmuted chats
    pub unread_unmuted_count: i32,
    /// Total number of chats marked as unread
    pub marked_as_unread_count: i32,
    /// Total number of unmuted chats marked as unread
    pub marked_as_unread_unmuted_count: i32,
}

/// An option changed its value
#[derive(Debug, Clone)]
pub struct UpdateOption {
    /// The option name
    pub name: String,
    /// The new option value
    pub value: OptionValue,
}

/// The list of installed sticker sets was updated
#[derive(Debug, Clone)]
pub struct UpdateInstalledStickerSets {
    /// True, if the list of installed mask sticker sets was updated
    pub is_masks: bool,
    /// The new list of installed ordinary sticker sets
    pub sticker_set_ids: Vec<i64>,
}

/// The list of recently used stickers was updated
#[derive(Debug, Clone)]
pub struct UpdateRecentStickers {
    /// True, if the list of stickers attached to photo or video files was updated, otherwise the
    /// list of sent stickers is updated
    pub is_attached: bool,
    /// The new list of file identifiers of recently used stickers
    pub sticker_ids: Vec<i32>,
}

/// The list of favorite stickers was updated
#[derive(Debug, Clone)]
pub struct UpdateFavoriteStickers {
    /// The new list of file identifiers of favorite stickers
    pub sticker_ids: Vec<i32>,
}

/// The list of saved animations was updated
#[derive(Debug, Clone)]
pub struct UpdateSavedAnimations {
    /// The new list of file identifiers of saved animations
    pub animation_ids: Vec<i32>,
}

/// The selected background has changed
#[derive(Debug, Clone)]
pub struct UpdateSelectedBackground {
    /// True, if background for dark theme has changed
    pub for_dark_theme: bool,
    /// The new selected background; may be null
    pub background: Option<Background>,
}

/// Some language pack strings have been updated
#[derive(Debug, Clone)]
pub struct UpdateLanguagePackStrings {
    /// Localization target to which the language pack belongs
    pub localization_target: String,
    /// Identifier of the updated language pack
    pub language_pack_id: String,
    /// List of changed language pack strings
    pub strings: Vec<LanguagePackString>,
}

/// The connection state has changed
#[derive(Debug, Clone)]
pub struct UpdateConnectionState {
    /// The new connection state
    pub state: ConnectionState,
}

/// New terms of service must be accepted by the user. If the terms of service are declined, then
/// the deleteAccount method should be called with the reason "Decline ToS update"
#[derive(Debug, Clone)]
pub struct UpdateTermsOfService {
    /// Identifier of the terms of service
    pub terms_of_service_id: String,
    /// The new terms of service
    pub terms_of_service: TermsOfService,
}

/// The list of users nearby has changed. The update is sent only 60 seconds after a successful
/// searchChatsNearby request
#[derive(Debug, Clone)]
pub struct UpdateUsersNearby {
    /// The new list of users nearby
    pub users_nearby: Vec<ChatNearby>,
}

/// The list of supported dice emojis has changed
#[derive(Debug, Clone)]
pub struct UpdateDiceEmojis {
    /// The new list of supported dice emojis
    pub emojis: Vec<String>,
}

/// A new incoming callback query; for bots only
#[derive(Debug, Clone)]
pub struct UpdateNewCallbackQuery {
    /// Unique query identifier
    pub id: i64,
    /// Identifier of the user who sent the query
    pub sender_user_id: i32,
    /// Identifier of the chat where the query was sent
    pub chat_id: i64,
    /// Identifier of the message, from which the query originated
    pub message_id: i64,
    /// Identifier that uniquely corresponds to the chat to which the message was sent
    pub chat_instance: i64,
    /// Query payload
    pub payload: CallbackQueryPayload,
}

/// A new incoming callback query from a message sent via a bot; for bots only
#[derive(Debug, Clone)]
pub struct UpdateNewInlineCallbackQuery {
    /// Unique query identifier
    pub id: i64,
    /// Identifier of the user who sent the query
    pub sender_user_id: i32,
    /// Identifier of the inline message, from which the query originated
    pub inline_message_id: String,
    /// An identifier uniquely corresponding to the chat a message was sent to
    pub chat_instance: i64,
    /// Query payload
    pub payload: CallbackQueryPayload,
}

/// A new incoming shipping query; for bots only. Only for invoices with flexible price
#[derive(Debug, Clone)]
pub struct UpdateNewShippingQuery {
    /// Unique query identifier
    pub id: i64,
    /// Identifier of the user who sent the query
    pub sender_user_id: i32,
    /// Invoice payload
    pub invoice_payload: String,
    /// User shipping address
    pub shipping_address: Address,
}

/// A new incoming pre-checkout query; for bots only. Contains full information about a checkout
#[derive(Debug, Clone)]
pub struct UpdateNewPreCheckoutQuery {
    /// Unique query identifier
    pub id: i64,
    /// Identifier of the user who sent the query
    pub sender_user_id: i32,
    /// Currency for the product price
    pub currency: String,
    /// Total price for the product, in the minimal quantity of the currency
    pub total_amount: i64,
    /// Invoice payload
    pub invoice_payload: String,
    /// Identifier of a shipping option chosen by the user; may be empty if not applicable
    pub shipping_option_id: String,
    /// Information about the order; may be null
    pub order_info: Option<OrderInfo>,
}

/// A new incoming event; for bots only
#[derive(Debug, Clone)]
pub struct UpdateNewCustomEvent {
    /// A JSON-serialized event
    pub event: String,
}

/// A new incoming query; for bots only
#[derive(Debug, Clone)]
pub struct UpdateNewCustomQuery {
    /// The query identifier
    pub id: i64,
    /// JSON-serialized query data
    pub data: String,
    /// Query timeout
    pub timeout: i32,
}

/// A poll was updated; for bots only
#[derive(Debug, Clone)]
pub struct UpdatePoll {
    /// New data about the poll
    pub poll: Poll,
}

/// A user changed the answer to a poll; for bots only
#[derive(Debug, Clone)]
pub struct UpdatePollAnswer {
    /// Unique poll identifier
    pub poll_id: i64,
    /// The user, who changed the answer to the poll
    pub user_id: i32,
    /// 0-based identifiers of answer options, chosen by the user
    pub option_ids: Vec<i32>,
}

/// The log is written to stderr or an OS specific log
#[derive(Debug, Clone)]
pub struct LogStreamDefault {}

/// The log is written to a file
#[derive(Debug, Clone)]
pub struct LogStreamFile {
    /// Path to the file to where the internal TDLib log will be written
    pub path: String,
    /// The maximum size of the file to where the internal TDLib log is written before the file will
    /// be auto-rotated
    pub max_file_size: i64,
}

/// The log is written nowhere
#[derive(Debug, Clone)]
pub struct LogStreamEmpty {}

/// Contains a TDLib internal log verbosity level
#[derive(Debug, Clone)]
pub struct LogVerbosityLevel {
    /// Log verbosity level
    pub verbosity_level: i32,
}

/// Contains a list of available TDLib internal log tags
#[derive(Debug, Clone)]
pub struct LogTags {
    /// List of log tags
    pub tags: Vec<String>,
}

/// A simple object containing a number; for testing only
#[derive(Debug, Clone)]
pub struct TestInt {
    /// Number
    pub value: i32,
}

/// A simple object containing a string; for testing only
#[derive(Debug, Clone)]
pub struct TestString {
    /// String
    pub value: String,
}

/// A simple object containing a sequence of bytes; for testing only
#[derive(Debug, Clone)]
pub struct TestBytes {
    /// Bytes
    pub value: String,
}

/// A simple object containing a vector of numbers; for testing only
#[derive(Debug, Clone)]
pub struct TestVectorInt {
    /// Vector of numbers
    pub value: Vec<i32>,
}

/// A simple object containing a vector of objects that hold a number; for testing only
#[derive(Debug, Clone)]
pub struct TestVectorIntObject {
    /// Vector of objects
    pub value: Vec<TestInt>,
}

/// A simple object containing a vector of strings; for testing only
#[derive(Debug, Clone)]
pub struct TestVectorString {
    /// Vector of strings
    pub value: Vec<String>,
}

/// A simple object containing a vector of objects that hold a string; for testing only
#[derive(Debug, Clone)]
pub struct TestVectorStringObject {
    /// Vector of objects
    pub value: Vec<TestString>,
}

#[derive(Debug, Clone)]
pub enum MaskPoint {
    MaskPointForehead(MaskPointForehead),
    MaskPointEyes(MaskPointEyes),
    MaskPointMouth(MaskPointMouth),
    MaskPointChin(MaskPointChin),
}

#[derive(Debug, Clone)]
pub enum FileType {
    FileTypeNone(FileTypeNone),
    FileTypeAnimation(FileTypeAnimation),
    FileTypeAudio(FileTypeAudio),
    FileTypeDocument(FileTypeDocument),
    FileTypePhoto(FileTypePhoto),
    FileTypeProfilePhoto(FileTypeProfilePhoto),
    FileTypeSecret(FileTypeSecret),
    FileTypeSecretThumbnail(FileTypeSecretThumbnail),
    FileTypeSecure(FileTypeSecure),
    FileTypeSticker(FileTypeSticker),
    FileTypeThumbnail(FileTypeThumbnail),
    FileTypeUnknown(FileTypeUnknown),
    FileTypeVideo(FileTypeVideo),
    FileTypeVideoNote(FileTypeVideoNote),
    FileTypeVoiceNote(FileTypeVoiceNote),
    FileTypeWallpaper(FileTypeWallpaper),
}

#[derive(Debug, Clone)]
pub enum ProxyType {
    ProxyTypeSocks5(ProxyTypeSocks5),
    ProxyTypeHttp(ProxyTypeHttp),
    ProxyTypeMtproto(ProxyTypeMtproto),
}

#[derive(Debug, Clone)]
pub enum LoginUrlInfo {
    LoginUrlInfoOpen(LoginUrlInfoOpen),
    LoginUrlInfoRequestConfirmation(LoginUrlInfoRequestConfirmation),
}

#[derive(Debug, Clone)]
pub enum ChatMembersFilter {
    ChatMembersFilterContacts(ChatMembersFilterContacts),
    ChatMembersFilterAdministrators(ChatMembersFilterAdministrators),
    ChatMembersFilterMembers(ChatMembersFilterMembers),
    ChatMembersFilterRestricted(ChatMembersFilterRestricted),
    ChatMembersFilterBanned(ChatMembersFilterBanned),
    ChatMembersFilterBots(ChatMembersFilterBots),
}

#[derive(Debug, Clone)]
pub enum ChatSource {
    ChatSourceMtprotoProxy(ChatSourceMtprotoProxy),
    ChatSourcePublicServiceAnnouncement(ChatSourcePublicServiceAnnouncement),
}

#[derive(Debug, Clone)]
pub enum TextEntityType {
    TextEntityTypeMention(TextEntityTypeMention),
    TextEntityTypeHashtag(TextEntityTypeHashtag),
    TextEntityTypeCashtag(TextEntityTypeCashtag),
    TextEntityTypeBotCommand(TextEntityTypeBotCommand),
    TextEntityTypeUrl(TextEntityTypeUrl),
    TextEntityTypeEmailAddress(TextEntityTypeEmailAddress),
    TextEntityTypePhoneNumber(TextEntityTypePhoneNumber),
    TextEntityTypeBankCardNumber(TextEntityTypeBankCardNumber),
    TextEntityTypeBold(TextEntityTypeBold),
    TextEntityTypeItalic(TextEntityTypeItalic),
    TextEntityTypeUnderline(TextEntityTypeUnderline),
    TextEntityTypeStrikethrough(TextEntityTypeStrikethrough),
    TextEntityTypeCode(TextEntityTypeCode),
    TextEntityTypePre(TextEntityTypePre),
    TextEntityTypePreCode(TextEntityTypePreCode),
    TextEntityTypeTextUrl(TextEntityTypeTextUrl),
    TextEntityTypeMentionName(TextEntityTypeMentionName),
}

#[derive(Debug, Clone)]
pub enum NetworkType {
    NetworkTypeNone(NetworkTypeNone),
    NetworkTypeMobile(NetworkTypeMobile),
    NetworkTypeMobileRoaming(NetworkTypeMobileRoaming),
    NetworkTypeWiFi(NetworkTypeWiFi),
    NetworkTypeOther(NetworkTypeOther),
}

#[derive(Debug, Clone)]
pub enum PassportElement {
    PassportElementPersonalDetails(PassportElementPersonalDetails),
    PassportElementPassport(PassportElementPassport),
    PassportElementDriverLicense(PassportElementDriverLicense),
    PassportElementIdentityCard(PassportElementIdentityCard),
    PassportElementInternalPassport(PassportElementInternalPassport),
    PassportElementAddress(PassportElementAddress),
    PassportElementUtilityBill(PassportElementUtilityBill),
    PassportElementBankStatement(PassportElementBankStatement),
    PassportElementRentalAgreement(PassportElementRentalAgreement),
    PassportElementPassportRegistration(PassportElementPassportRegistration),
    PassportElementTemporaryRegistration(PassportElementTemporaryRegistration),
    PassportElementPhoneNumber(PassportElementPhoneNumber),
    PassportElementEmailAddress(PassportElementEmailAddress),
}

#[derive(Debug, Clone)]
pub enum LanguagePackStringValue {
    LanguagePackStringValueOrdinary(LanguagePackStringValueOrdinary),
    LanguagePackStringValuePluralized(LanguagePackStringValuePluralized),
    LanguagePackStringValueDeleted(LanguagePackStringValueDeleted),
}

#[derive(Debug, Clone)]
pub enum CallState {
    CallStatePending(CallStatePending),
    CallStateExchangingKeys(CallStateExchangingKeys),
    CallStateReady(CallStateReady),
    CallStateHangingUp(CallStateHangingUp),
    CallStateDiscarded(CallStateDiscarded),
    CallStateError(CallStateError),
}

#[derive(Debug, Clone)]
pub enum KeyboardButtonType {
    KeyboardButtonTypeText(KeyboardButtonTypeText),
    KeyboardButtonTypeRequestPhoneNumber(KeyboardButtonTypeRequestPhoneNumber),
    KeyboardButtonTypeRequestLocation(KeyboardButtonTypeRequestLocation),
    KeyboardButtonTypeRequestPoll(KeyboardButtonTypeRequestPoll),
}

#[derive(Debug)]
pub enum RichText {
    RichTextPlain(RichTextPlain),
    RichTextBold(RichTextBold),
    RichTextItalic(RichTextItalic),
    RichTextUnderline(RichTextUnderline),
    RichTextStrikethrough(RichTextStrikethrough),
    RichTextFixed(RichTextFixed),
    RichTextUrl(RichTextUrl),
    RichTextEmailAddress(RichTextEmailAddress),
    RichTextSubscript(RichTextSubscript),
    RichTextSuperscript(RichTextSuperscript),
    RichTextMarked(RichTextMarked),
    RichTextPhoneNumber(RichTextPhoneNumber),
    RichTextIcon(RichTextIcon),
    RichTextReference(RichTextReference),
    RichTextAnchor(RichTextAnchor),
    RichTextAnchorLink(RichTextAnchorLink),
    RichTexts(RichTexts),
}

#[derive(Debug, Clone)]
pub enum InputBackground {
    InputBackgroundLocal(InputBackgroundLocal),
    InputBackgroundRemote(InputBackgroundRemote),
}

#[derive(Debug, Clone)]
pub enum InputPassportElementErrorSource {
    InputPassportElementErrorSourceUnspecified(InputPassportElementErrorSourceUnspecified),
    InputPassportElementErrorSourceDataField(InputPassportElementErrorSourceDataField),
    InputPassportElementErrorSourceFrontSide(InputPassportElementErrorSourceFrontSide),
    InputPassportElementErrorSourceReverseSide(InputPassportElementErrorSourceReverseSide),
    InputPassportElementErrorSourceSelfie(InputPassportElementErrorSourceSelfie),
    InputPassportElementErrorSourceTranslationFile(InputPassportElementErrorSourceTranslationFile),
    InputPassportElementErrorSourceTranslationFiles(InputPassportElementErrorSourceTranslationFiles),
    InputPassportElementErrorSourceFile(InputPassportElementErrorSourceFile),
    InputPassportElementErrorSourceFiles(InputPassportElementErrorSourceFiles),
}

#[derive(Debug, Clone)]
pub enum AuthenticationCodeType {
    AuthenticationCodeTypeTelegramMessage(AuthenticationCodeTypeTelegramMessage),
    AuthenticationCodeTypeSms(AuthenticationCodeTypeSms),
    AuthenticationCodeTypeCall(AuthenticationCodeTypeCall),
    AuthenticationCodeTypeFlashCall(AuthenticationCodeTypeFlashCall),
}

#[derive(Debug, Clone)]
pub enum ChatMemberStatus {
    ChatMemberStatusCreator(ChatMemberStatusCreator),
    ChatMemberStatusAdministrator(ChatMemberStatusAdministrator),
    ChatMemberStatusMember(ChatMemberStatusMember),
    ChatMemberStatusRestricted(ChatMemberStatusRestricted),
    ChatMemberStatusLeft(ChatMemberStatusLeft),
    ChatMemberStatusBanned(ChatMemberStatusBanned),
}

#[derive(Debug, Clone)]
pub enum UserPrivacySettingRule {
    UserPrivacySettingRuleAllowAll(UserPrivacySettingRuleAllowAll),
    UserPrivacySettingRuleAllowContacts(UserPrivacySettingRuleAllowContacts),
    UserPrivacySettingRuleAllowUsers(UserPrivacySettingRuleAllowUsers),
    UserPrivacySettingRuleAllowChatMembers(UserPrivacySettingRuleAllowChatMembers),
    UserPrivacySettingRuleRestrictAll(UserPrivacySettingRuleRestrictAll),
    UserPrivacySettingRuleRestrictContacts(UserPrivacySettingRuleRestrictContacts),
    UserPrivacySettingRuleRestrictUsers(UserPrivacySettingRuleRestrictUsers),
    UserPrivacySettingRuleRestrictChatMembers(UserPrivacySettingRuleRestrictChatMembers),
}

#[derive(Debug, Clone)]
pub enum AuthorizationState {
    AuthorizationStateWaitTdlibParameters(AuthorizationStateWaitTdlibParameters),
    AuthorizationStateWaitEncryptionKey(AuthorizationStateWaitEncryptionKey),
    AuthorizationStateWaitPhoneNumber(AuthorizationStateWaitPhoneNumber),
    AuthorizationStateWaitCode(AuthorizationStateWaitCode),
    AuthorizationStateWaitOtherDeviceConfirmation(AuthorizationStateWaitOtherDeviceConfirmation),
    AuthorizationStateWaitRegistration(AuthorizationStateWaitRegistration),
    AuthorizationStateWaitPassword(AuthorizationStateWaitPassword),
    AuthorizationStateReady(AuthorizationStateReady),
    AuthorizationStateLoggingOut(AuthorizationStateLoggingOut),
    AuthorizationStateClosing(AuthorizationStateClosing),
    AuthorizationStateClosed(AuthorizationStateClosed),
}

#[derive(Debug, Clone)]
pub enum OptionValue {
    OptionValueBoolean(OptionValueBoolean),
    OptionValueEmpty(OptionValueEmpty),
    OptionValueInteger(OptionValueInteger),
    OptionValueString(OptionValueString),
}

#[derive(Debug, Clone)]
pub enum ChatType {
    ChatTypePrivate(ChatTypePrivate),
    ChatTypeBasicGroup(ChatTypeBasicGroup),
    ChatTypeSupergroup(ChatTypeSupergroup),
    ChatTypeSecret(ChatTypeSecret),
}

#[derive(Debug, Clone)]
pub enum UserStatus {
    UserStatusEmpty(UserStatusEmpty),
    UserStatusOnline(UserStatusOnline),
    UserStatusOffline(UserStatusOffline),
    UserStatusRecently(UserStatusRecently),
    UserStatusLastWeek(UserStatusLastWeek),
    UserStatusLastMonth(UserStatusLastMonth),
}

#[derive(Debug, Clone)]
pub enum MessageForwardOrigin {
    MessageForwardOriginUser(MessageForwardOriginUser),
    MessageForwardOriginHiddenUser(MessageForwardOriginHiddenUser),
    MessageForwardOriginChannel(MessageForwardOriginChannel),
}

#[derive(Debug, Clone)]
pub enum PageBlockVerticalAlignment {
    PageBlockVerticalAlignmentTop(PageBlockVerticalAlignmentTop),
    PageBlockVerticalAlignmentMiddle(PageBlockVerticalAlignmentMiddle),
    PageBlockVerticalAlignmentBottom(PageBlockVerticalAlignmentBottom),
}

#[derive(Debug, Clone)]
pub enum CanTransferOwnershipResult {
    CanTransferOwnershipResultOk(CanTransferOwnershipResultOk),
    CanTransferOwnershipResultPasswordNeeded(CanTransferOwnershipResultPasswordNeeded),
    CanTransferOwnershipResultPasswordTooFresh(CanTransferOwnershipResultPasswordTooFresh),
    CanTransferOwnershipResultSessionTooFresh(CanTransferOwnershipResultSessionTooFresh),
}

#[derive(Debug, Clone)]
pub enum PageBlockHorizontalAlignment {
    PageBlockHorizontalAlignmentLeft(PageBlockHorizontalAlignmentLeft),
    PageBlockHorizontalAlignmentCenter(PageBlockHorizontalAlignmentCenter),
    PageBlockHorizontalAlignmentRight(PageBlockHorizontalAlignmentRight),
}

#[derive(Debug, Clone)]
pub enum SearchMessagesFilter {
    SearchMessagesFilterEmpty(SearchMessagesFilterEmpty),
    SearchMessagesFilterAnimation(SearchMessagesFilterAnimation),
    SearchMessagesFilterAudio(SearchMessagesFilterAudio),
    SearchMessagesFilterDocument(SearchMessagesFilterDocument),
    SearchMessagesFilterPhoto(SearchMessagesFilterPhoto),
    SearchMessagesFilterVideo(SearchMessagesFilterVideo),
    SearchMessagesFilterVoiceNote(SearchMessagesFilterVoiceNote),
    SearchMessagesFilterPhotoAndVideo(SearchMessagesFilterPhotoAndVideo),
    SearchMessagesFilterUrl(SearchMessagesFilterUrl),
    SearchMessagesFilterChatPhoto(SearchMessagesFilterChatPhoto),
    SearchMessagesFilterCall(SearchMessagesFilterCall),
    SearchMessagesFilterMissedCall(SearchMessagesFilterMissedCall),
    SearchMessagesFilterVideoNote(SearchMessagesFilterVideoNote),
    SearchMessagesFilterVoiceAndVideoNote(SearchMessagesFilterVoiceAndVideoNote),
    SearchMessagesFilterMention(SearchMessagesFilterMention),
    SearchMessagesFilterUnreadMention(SearchMessagesFilterUnreadMention),
    SearchMessagesFilterFailedToSend(SearchMessagesFilterFailedToSend),
}

#[derive(Debug, Clone)]
pub enum ReplyMarkup {
    ReplyMarkupRemoveKeyboard(ReplyMarkupRemoveKeyboard),
    ReplyMarkupForceReply(ReplyMarkupForceReply),
    ReplyMarkupShowKeyboard(ReplyMarkupShowKeyboard),
    ReplyMarkupInlineKeyboard(ReplyMarkupInlineKeyboard),
}

#[derive(Debug, Clone)]
pub enum TMeUrlType {
    TMeUrlTypeUser(TMeUrlTypeUser),
    TMeUrlTypeSupergroup(TMeUrlTypeSupergroup),
    TMeUrlTypeChatInvite(TMeUrlTypeChatInvite),
    TMeUrlTypeStickerSet(TMeUrlTypeStickerSet),
}

#[derive(Debug, Clone)]
pub enum ChatAction {
    ChatActionTyping(ChatActionTyping),
    ChatActionRecordingVideo(ChatActionRecordingVideo),
    ChatActionUploadingVideo(ChatActionUploadingVideo),
    ChatActionRecordingVoiceNote(ChatActionRecordingVoiceNote),
    ChatActionUploadingVoiceNote(ChatActionUploadingVoiceNote),
    ChatActionUploadingPhoto(ChatActionUploadingPhoto),
    ChatActionUploadingDocument(ChatActionUploadingDocument),
    ChatActionChoosingLocation(ChatActionChoosingLocation),
    ChatActionChoosingContact(ChatActionChoosingContact),
    ChatActionStartPlayingGame(ChatActionStartPlayingGame),
    ChatActionRecordingVideoNote(ChatActionRecordingVideoNote),
    ChatActionUploadingVideoNote(ChatActionUploadingVideoNote),
    ChatActionCancel(ChatActionCancel),
}

#[derive(Debug, Clone)]
pub enum UserPrivacySetting {
    UserPrivacySettingShowStatus(UserPrivacySettingShowStatus),
    UserPrivacySettingShowProfilePhoto(UserPrivacySettingShowProfilePhoto),
    UserPrivacySettingShowLinkInForwardedMessages(UserPrivacySettingShowLinkInForwardedMessages),
    UserPrivacySettingShowPhoneNumber(UserPrivacySettingShowPhoneNumber),
    UserPrivacySettingAllowChatInvites(UserPrivacySettingAllowChatInvites),
    UserPrivacySettingAllowCalls(UserPrivacySettingAllowCalls),
    UserPrivacySettingAllowPeerToPeerCalls(UserPrivacySettingAllowPeerToPeerCalls),
    UserPrivacySettingAllowFindingByPhoneNumber(UserPrivacySettingAllowFindingByPhoneNumber),
}

#[derive(Debug, Clone)]
pub enum ChatList {
    ChatListMain(ChatListMain),
    ChatListArchive(ChatListArchive),
}

#[derive(Debug, Clone)]
pub enum UserType {
    UserTypeRegular(UserTypeRegular),
    UserTypeDeleted(UserTypeDeleted),
    UserTypeBot(UserTypeBot),
    UserTypeUnknown(UserTypeUnknown),
}

#[derive(Debug, Clone)]
pub enum NotificationSettingsScope {
    NotificationSettingsScopePrivateChats(NotificationSettingsScopePrivateChats),
    NotificationSettingsScopeGroupChats(NotificationSettingsScopeGroupChats),
    NotificationSettingsScopeChannelChats(NotificationSettingsScopeChannelChats),
}

#[derive(Debug, Clone)]
pub enum TopChatCategory {
    TopChatCategoryUsers(TopChatCategoryUsers),
    TopChatCategoryBots(TopChatCategoryBots),
    TopChatCategoryGroups(TopChatCategoryGroups),
    TopChatCategoryChannels(TopChatCategoryChannels),
    TopChatCategoryInlineBots(TopChatCategoryInlineBots),
    TopChatCategoryCalls(TopChatCategoryCalls),
    TopChatCategoryForwardChats(TopChatCategoryForwardChats),
}

#[derive(Debug, Clone)]
pub enum PassportElementErrorSource {
    PassportElementErrorSourceUnspecified(PassportElementErrorSourceUnspecified),
    PassportElementErrorSourceDataField(PassportElementErrorSourceDataField),
    PassportElementErrorSourceFrontSide(PassportElementErrorSourceFrontSide),
    PassportElementErrorSourceReverseSide(PassportElementErrorSourceReverseSide),
    PassportElementErrorSourceSelfie(PassportElementErrorSourceSelfie),
    PassportElementErrorSourceTranslationFile(PassportElementErrorSourceTranslationFile),
    PassportElementErrorSourceTranslationFiles(PassportElementErrorSourceTranslationFiles),
    PassportElementErrorSourceFile(PassportElementErrorSourceFile),
    PassportElementErrorSourceFiles(PassportElementErrorSourceFiles),
}

#[derive(Debug, Clone)]
pub enum SecretChatState {
    SecretChatStatePending(SecretChatStatePending),
    SecretChatStateReady(SecretChatStateReady),
    SecretChatStateClosed(SecretChatStateClosed),
}

#[derive(Debug, Clone)]
pub enum PublicChatType {
    PublicChatTypeHasUsername(PublicChatTypeHasUsername),
    PublicChatTypeIsLocationBased(PublicChatTypeIsLocationBased),
}

#[derive(Debug, Clone)]
pub enum InputPassportElement {
    InputPassportElementPersonalDetails(InputPassportElementPersonalDetails),
    InputPassportElementPassport(InputPassportElementPassport),
    InputPassportElementDriverLicense(InputPassportElementDriverLicense),
    InputPassportElementIdentityCard(InputPassportElementIdentityCard),
    InputPassportElementInternalPassport(InputPassportElementInternalPassport),
    InputPassportElementAddress(InputPassportElementAddress),
    InputPassportElementUtilityBill(InputPassportElementUtilityBill),
    InputPassportElementBankStatement(InputPassportElementBankStatement),
    InputPassportElementRentalAgreement(InputPassportElementRentalAgreement),
    InputPassportElementPassportRegistration(InputPassportElementPassportRegistration),
    InputPassportElementTemporaryRegistration(InputPassportElementTemporaryRegistration),
    InputPassportElementPhoneNumber(InputPassportElementPhoneNumber),
    InputPassportElementEmailAddress(InputPassportElementEmailAddress),
}

#[derive(Debug, Clone)]
pub enum SupergroupMembersFilter {
    SupergroupMembersFilterRecent(SupergroupMembersFilterRecent),
    SupergroupMembersFilterContacts(SupergroupMembersFilterContacts),
    SupergroupMembersFilterAdministrators(SupergroupMembersFilterAdministrators),
    SupergroupMembersFilterSearch(SupergroupMembersFilterSearch),
    SupergroupMembersFilterRestricted(SupergroupMembersFilterRestricted),
    SupergroupMembersFilterBanned(SupergroupMembersFilterBanned),
    SupergroupMembersFilterBots(SupergroupMembersFilterBots),
}

#[derive(Debug, Clone)]
pub enum InputFile {
    InputFileId(InputFileId),
    InputFileRemote(InputFileRemote),
    InputFileLocal(InputFileLocal),
    InputFileGenerated(InputFileGenerated),
}

#[derive(Debug, Clone)]
pub enum BackgroundFill {
    BackgroundFillSolid(BackgroundFillSolid),
    BackgroundFillGradient(BackgroundFillGradient),
}

#[derive(Debug, Clone)]
pub enum InlineKeyboardButtonType {
    InlineKeyboardButtonTypeUrl(InlineKeyboardButtonTypeUrl),
    InlineKeyboardButtonTypeLoginUrl(InlineKeyboardButtonTypeLoginUrl),
    InlineKeyboardButtonTypeCallback(InlineKeyboardButtonTypeCallback),
    InlineKeyboardButtonTypeCallbackGame(InlineKeyboardButtonTypeCallbackGame),
    InlineKeyboardButtonTypeSwitchInline(InlineKeyboardButtonTypeSwitchInline),
    InlineKeyboardButtonTypeBuy(InlineKeyboardButtonTypeBuy),
}

#[derive(Debug, Clone)]
pub enum PollType {
    PollTypeRegular(PollTypeRegular),
    PollTypeQuiz(PollTypeQuiz),
}

#[derive(Debug, Clone)]
pub enum ChatActionBar {
    ChatActionBarReportSpam(ChatActionBarReportSpam),
    ChatActionBarReportUnrelatedLocation(ChatActionBarReportUnrelatedLocation),
    ChatActionBarReportAddBlock(ChatActionBarReportAddBlock),
    ChatActionBarAddContact(ChatActionBarAddContact),
    ChatActionBarSharePhoneNumber(ChatActionBarSharePhoneNumber),
}

#[derive(Debug, Clone)]
pub enum BackgroundType {
    BackgroundTypeWallpaper(BackgroundTypeWallpaper),
    BackgroundTypePattern(BackgroundTypePattern),
    BackgroundTypeFill(BackgroundTypeFill),
}

#[derive(Debug, Clone)]
pub enum PassportElementType {
    PassportElementTypePersonalDetails(PassportElementTypePersonalDetails),
    PassportElementTypePassport(PassportElementTypePassport),
    PassportElementTypeDriverLicense(PassportElementTypeDriverLicense),
    PassportElementTypeIdentityCard(PassportElementTypeIdentityCard),
    PassportElementTypeInternalPassport(PassportElementTypeInternalPassport),
    PassportElementTypeAddress(PassportElementTypeAddress),
    PassportElementTypeUtilityBill(PassportElementTypeUtilityBill),
    PassportElementTypeBankStatement(PassportElementTypeBankStatement),
    PassportElementTypeRentalAgreement(PassportElementTypeRentalAgreement),
    PassportElementTypePassportRegistration(PassportElementTypePassportRegistration),
    PassportElementTypeTemporaryRegistration(PassportElementTypeTemporaryRegistration),
    PassportElementTypePhoneNumber(PassportElementTypePhoneNumber),
    PassportElementTypeEmailAddress(PassportElementTypeEmailAddress),
}

#[derive(Debug, Clone)]
pub enum DeviceToken {
    DeviceTokenFirebaseCloudMessaging(DeviceTokenFirebaseCloudMessaging),
    DeviceTokenApplePush(DeviceTokenApplePush),
    DeviceTokenApplePushVoIP(DeviceTokenApplePushVoIP),
    DeviceTokenWindowsPush(DeviceTokenWindowsPush),
    DeviceTokenMicrosoftPush(DeviceTokenMicrosoftPush),
    DeviceTokenMicrosoftPushVoIP(DeviceTokenMicrosoftPushVoIP),
    DeviceTokenWebPush(DeviceTokenWebPush),
    DeviceTokenSimplePush(DeviceTokenSimplePush),
    DeviceTokenUbuntuPush(DeviceTokenUbuntuPush),
    DeviceTokenBlackBerryPush(DeviceTokenBlackBerryPush),
    DeviceTokenTizenPush(DeviceTokenTizenPush),
}

#[derive(Debug, Clone)]
pub enum CheckChatUsernameResult {
    CheckChatUsernameResultOk(CheckChatUsernameResultOk),
    CheckChatUsernameResultUsernameInvalid(CheckChatUsernameResultUsernameInvalid),
    CheckChatUsernameResultUsernameOccupied(CheckChatUsernameResultUsernameOccupied),
    CheckChatUsernameResultPublicChatsTooMuch(CheckChatUsernameResultPublicChatsTooMuch),
    CheckChatUsernameResultPublicGroupsUnavailable(CheckChatUsernameResultPublicGroupsUnavailable),
}

#[derive(Debug, Clone)]
pub enum MessageSchedulingState {
    MessageSchedulingStateSendAtDate(MessageSchedulingStateSendAtDate),
    MessageSchedulingStateSendWhenOnline(MessageSchedulingStateSendWhenOnline),
}

#[derive(Debug, Clone)]
pub enum StatisticsGraph {
    StatisticsGraphData(StatisticsGraphData),
    StatisticsGraphAsync(StatisticsGraphAsync),
    StatisticsGraphError(StatisticsGraphError),
}

#[derive(Debug, Clone)]
pub enum TextParseMode {
    TextParseModeMarkdown(TextParseModeMarkdown),
    TextParseModeHTML(TextParseModeHTML),
}

#[derive(Debug, Clone)]
pub enum ConnectionState {
    ConnectionStateWaitingForNetwork(ConnectionStateWaitingForNetwork),
    ConnectionStateConnectingToProxy(ConnectionStateConnectingToProxy),
    ConnectionStateConnecting(ConnectionStateConnecting),
    ConnectionStateUpdating(ConnectionStateUpdating),
    ConnectionStateReady(ConnectionStateReady),
}

#[derive(Debug, Clone)]
pub enum CallProblem {
    CallProblemEcho(CallProblemEcho),
    CallProblemNoise(CallProblemNoise),
    CallProblemInterruptions(CallProblemInterruptions),
    CallProblemDistortedSpeech(CallProblemDistortedSpeech),
    CallProblemSilentLocal(CallProblemSilentLocal),
    CallProblemSilentRemote(CallProblemSilentRemote),
    CallProblemDropped(CallProblemDropped),
}

#[derive(Debug, Clone)]
pub enum InputCredentials {
    InputCredentialsSaved(InputCredentialsSaved),
    InputCredentialsNew(InputCredentialsNew),
    InputCredentialsAndroidPay(InputCredentialsAndroidPay),
    InputCredentialsApplePay(InputCredentialsApplePay),
}

#[derive(Debug, Clone)]
pub enum NotificationGroupType {
    NotificationGroupTypeMessages(NotificationGroupTypeMessages),
    NotificationGroupTypeMentions(NotificationGroupTypeMentions),
    NotificationGroupTypeSecretChat(NotificationGroupTypeSecretChat),
    NotificationGroupTypeCalls(NotificationGroupTypeCalls),
}

#[derive(Debug, Clone)]
pub enum LogStream {
    LogStreamDefault(LogStreamDefault),
    LogStreamFile(LogStreamFile),
    LogStreamEmpty(LogStreamEmpty),
}

#[derive(Debug, Clone)]
pub enum ChatReportReason {
    ChatReportReasonSpam(ChatReportReasonSpam),
    ChatReportReasonViolence(ChatReportReasonViolence),
    ChatReportReasonPornography(ChatReportReasonPornography),
    ChatReportReasonChildAbuse(ChatReportReasonChildAbuse),
    ChatReportReasonCopyright(ChatReportReasonCopyright),
    ChatReportReasonUnrelatedLocation(ChatReportReasonUnrelatedLocation),
    ChatReportReasonCustom(ChatReportReasonCustom),
}

#[derive(Debug, Clone)]
pub enum CallDiscardReason {
    CallDiscardReasonEmpty(CallDiscardReasonEmpty),
    CallDiscardReasonMissed(CallDiscardReasonMissed),
    CallDiscardReasonDeclined(CallDiscardReasonDeclined),
    CallDiscardReasonDisconnected(CallDiscardReasonDisconnected),
    CallDiscardReasonHungUp(CallDiscardReasonHungUp),
}

#[derive(Debug, Clone)]
pub enum CallbackQueryPayload {
    CallbackQueryPayloadData(CallbackQueryPayloadData),
    CallbackQueryPayloadGame(CallbackQueryPayloadGame),
}

} // verus!
