//! Settings: the closed set of user, server and client settings, their wire
//! names, their typed values, and the wire calls that read, write and reset
//! them.

use vstd::prelude::*;
use crate::Error;
use crate::crud::{Request, Verb};
use crate::json::{JsonValue, lookup_first};
use crate::text::{int_val, is_int_str, all_digits, dec_val, parse_bool, parse_i64, parse_u64, str_eq};

verus! {

/// A failure to read a setting value from its string form.
#[derive(Clone, Copy, Debug, PartialEq, Eq, Structural)]
pub enum ParseError {
    /// The string does not hold a number of the setting's range.
    Number,
    /// The string does not hold a boolean.
    Boolean,
}

/// The names of the user settings: the settings a user can read and write.
#[derive(Clone, Copy, Debug, PartialEq, Eq, Structural, Hash)]
pub enum UserSettings {
    PasswordStrength,
    PasswordContainsNumber,
    PasswordContainsSpecial,
    CheckForDuplicates,
    CheckForOldPasswords,
    NotifySecurityByMail,
    NotifySharesByMail,
    NotifySecurityByNotification,
    NotifySharesByNotification,
    NotifyErrorsByNotification,
    ServerSideEncryption,
    ClientSideEncryption,
    SessionLifetime,
}

/// The wire name of a user setting.
pub open spec fn user_setting_name(s: UserSettings) -> Seq<char> {
    match s {
        UserSettings::PasswordStrength => "user.password.generator.strength"@,
        UserSettings::PasswordContainsNumber => "user.password.generator.numbers"@,
        UserSettings::PasswordContainsSpecial => "user.password.generator.special"@,
        UserSettings::CheckForDuplicates => "user.password.security.duplicates"@,
        UserSettings::CheckForOldPasswords => "user.password.security.age"@,
        UserSettings::NotifySecurityByMail => "user.mail.security"@,
        UserSettings::NotifySharesByMail => "user.mail.shares"@,
        UserSettings::NotifySecurityByNotification => "user.notification.security"@,
        UserSettings::NotifySharesByNotification => "user.notification.shares"@,
        UserSettings::NotifyErrorsByNotification => "user.notification.errors"@,
        UserSettings::ServerSideEncryption => "user.encryption.sse"@,
        UserSettings::ClientSideEncryption => "user.encryption.cse"@,
        UserSettings::SessionLifetime => "user.session.lifetime"@,
    }
}

impl UserSettings {
    /// The wire name of this setting.
    pub fn setting_name(&self) -> (r: String)
        ensures
            r@ == user_setting_name(*self),
    {
        match self {
            UserSettings::PasswordStrength => "user.password.generator.strength".to_owned(),
            UserSettings::PasswordContainsNumber => "user.password.generator.numbers".to_owned(),
            UserSettings::PasswordContainsSpecial => "user.password.generator.special".to_owned(),
            UserSettings::CheckForDuplicates => "user.password.security.duplicates".to_owned(),
            UserSettings::CheckForOldPasswords => "user.password.security.age".to_owned(),
            UserSettings::NotifySecurityByMail => "user.mail.security".to_owned(),
            UserSettings::NotifySharesByMail => "user.mail.shares".to_owned(),
            UserSettings::NotifySecurityByNotification => "user.notification.security".to_owned(),
            UserSettings::NotifySharesByNotification => "user.notification.shares".to_owned(),
            UserSettings::NotifyErrorsByNotification => "user.notification.errors".to_owned(),
            UserSettings::ServerSideEncryption => "user.encryption.sse".to_owned(),
            UserSettings::ClientSideEncryption => "user.encryption.cse".to_owned(),
            UserSettings::SessionLifetime => "user.session.lifetime".to_owned(),
        }
    }

    /// The user setting a wire name denotes.
    pub fn from_name(s: &str) -> (r: Option<UserSettings>)
        ensures
            match r {
                Some(v) => s@ == user_setting_name(v),
                None => forall|v: UserSettings| s@ != user_setting_name(v),
            },
    {
        if str_eq(s, "user.password.generator.strength") {
            Some(UserSettings::PasswordStrength)
        } else if str_eq(s, "user.password.generator.numbers") {
            Some(UserSettings::PasswordContainsNumber)
        } else if str_eq(s, "user.password.generator.special") {
            Some(UserSettings::PasswordContainsSpecial)
        } else if str_eq(s, "user.password.security.duplicates") {
            Some(UserSettings::CheckForDuplicates)
        } else if str_eq(s, "user.password.security.age") {
            Some(UserSettings::CheckForOldPasswords)
        } else if str_eq(s, "user.mail.security") {
            Some(UserSettings::NotifySecurityByMail)
        } else if str_eq(s, "user.mail.shares") {
            Some(UserSettings::NotifySharesByMail)
        } else if str_eq(s, "user.notification.security") {
            Some(UserSettings::NotifySecurityByNotification)
        } else if str_eq(s, "user.notification.shares") {
            Some(UserSettings::NotifySharesByNotification)
        } else if str_eq(s, "user.notification.errors") {
            Some(UserSettings::NotifyErrorsByNotification)
        } else if str_eq(s, "user.encryption.sse") {
            Some(UserSettings::ServerSideEncryption)
        } else if str_eq(s, "user.encryption.cse") {
            Some(UserSettings::ClientSideEncryption)
        } else if str_eq(s, "user.session.lifetime") {
            Some(UserSettings::SessionLifetime)
        } else {
            proof {
                assert forall|v: UserSettings| s@ != user_setting_name(v) by {
                    match v {
                        UserSettings::PasswordStrength => assert(s@ != "user.password.generator.strength"@),
                        UserSettings::PasswordContainsNumber => assert(s@ != "user.password.generator.numbers"@),
                        UserSettings::PasswordContainsSpecial => assert(s@ != "user.password.generator.special"@),
                        UserSettings::CheckForDuplicates => assert(s@ != "user.password.security.duplicates"@),
                        UserSettings::CheckForOldPasswords => assert(s@ != "user.password.security.age"@),
                        UserSettings::NotifySecurityByMail => assert(s@ != "user.mail.security"@),
                        UserSettings::NotifySharesByMail => assert(s@ != "user.mail.shares"@),
                        UserSettings::NotifySecurityByNotification => assert(s@ != "user.notification.security"@),
                        UserSettings::NotifySharesByNotification => assert(s@ != "user.notification.shares"@),
                        UserSettings::NotifyErrorsByNotification => assert(s@ != "user.notification.errors"@),
                        UserSettings::ServerSideEncryption => assert(s@ != "user.encryption.sse"@),
                        UserSettings::ClientSideEncryption => assert(s@ != "user.encryption.cse"@),
                        UserSettings::SessionLifetime => assert(s@ != "user.session.lifetime"@),
                    }
                }
            }
            None
        }
    }
}

/// The names of the server settings: read-only properties of the server.
#[derive(Clone, Copy, Debug, PartialEq, Eq, Structural, Hash)]
pub enum ServerSettings {
    Version,
    BaseUrl,
    BaseUrlWebDav,
    Sharing,
    Resharing,
    AutoComplete,
    SharingTypes,
    PrimaryColor,
    TextColor,
    BackgroundColor,
    BackgroundTheme,
    Logo,
    Label,
    AppIcon,
    FolderIcon,
}

/// The wire name of a server setting.
pub open spec fn server_setting_name(s: ServerSettings) -> Seq<char> {
    match s {
        ServerSettings::Version => "server.version"@,
        ServerSettings::BaseUrl => "server.baseUrl"@,
        ServerSettings::BaseUrlWebDav => "server.baseUrl.webdav"@,
        ServerSettings::Sharing => "server.sharing.enabled"@,
        ServerSettings::Resharing => "server.sharing.resharing"@,
        ServerSettings::AutoComplete => "server.sharing.autocomplete"@,
        ServerSettings::SharingTypes => "server.sharing.types"@,
        ServerSettings::PrimaryColor => "server.theme.color.primary"@,
        ServerSettings::TextColor => "server.theme.color.text"@,
        ServerSettings::BackgroundColor => "server.theme.color.background"@,
        ServerSettings::BackgroundTheme => "server.theme.background"@,
        ServerSettings::Logo => "server.theme.logo"@,
        ServerSettings::Label => "server.theme.label"@,
        ServerSettings::AppIcon => "server.theme.app.icon"@,
        ServerSettings::FolderIcon => "server.theme.folder.icon"@,
    }
}

impl ServerSettings {
    /// The wire name of this setting.
    pub fn setting_name(&self) -> (r: String)
        ensures
            r@ == server_setting_name(*self),
    {
        match self {
            ServerSettings::Version => "server.version".to_owned(),
            ServerSettings::BaseUrl => "server.baseUrl".to_owned(),
            ServerSettings::BaseUrlWebDav => "server.baseUrl.webdav".to_owned(),
            ServerSettings::Sharing => "server.sharing.enabled".to_owned(),
            ServerSettings::Resharing => "server.sharing.resharing".to_owned(),
            ServerSettings::AutoComplete => "server.sharing.autocomplete".to_owned(),
            ServerSettings::SharingTypes => "server.sharing.types".to_owned(),
            ServerSettings::PrimaryColor => "server.theme.color.primary".to_owned(),
            ServerSettings::TextColor => "server.theme.color.text".to_owned(),
            ServerSettings::BackgroundColor => "server.theme.color.background".to_owned(),
            ServerSettings::BackgroundTheme => "server.theme.background".to_owned(),
            ServerSettings::Logo => "server.theme.logo".to_owned(),
            ServerSettings::Label => "server.theme.label".to_owned(),
            ServerSettings::AppIcon => "server.theme.app.icon".to_owned(),
            ServerSettings::FolderIcon => "server.theme.folder.icon".to_owned(),
        }
    }

    /// The server setting a wire name denotes.
    pub fn from_name(s: &str) -> (r: Option<ServerSettings>)
        ensures
            match r {
                Some(v) => s@ == server_setting_name(v),
                None => forall|v: ServerSettings| s@ != server_setting_name(v),
            },
    {
        if str_eq(s, "server.version") {
            Some(ServerSettings::Version)
        } else if str_eq(s, "server.baseUrl") {
            Some(ServerSettings::BaseUrl)
        } else if str_eq(s, "server.baseUrl.webdav") {
            Some(ServerSettings::BaseUrlWebDav)
        } else if str_eq(s, "server.sharing.enabled") {
            Some(ServerSettings::Sharing)
        } else if str_eq(s, "server.sharing.resharing") {
            Some(ServerSettings::Resharing)
        } else if str_eq(s, "server.sharing.autocomplete") {
            Some(ServerSettings::AutoComplete)
        } else if str_eq(s, "server.sharing.types") {
            Some(ServerSettings::SharingTypes)
        } else if str_eq(s, "server.theme.color.primary") {
            Some(ServerSettings::PrimaryColor)
        } else if str_eq(s, "server.theme.color.text") {
            Some(ServerSettings::TextColor)
        } else if str_eq(s, "server.theme.color.background") {
            Some(ServerSettings::BackgroundColor)
        } else if str_eq(s, "server.theme.background") {
            Some(ServerSettings::BackgroundTheme)
        } else if str_eq(s, "server.theme.logo") {
            Some(ServerSettings::Logo)
        } else if str_eq(s, "server.theme.label") {
            Some(ServerSettings::Label)
        } else if str_eq(s, "server.theme.app.icon") {
            Some(ServerSettings::AppIcon)
        } else if str_eq(s, "server.theme.folder.icon") {
            Some(ServerSettings::FolderIcon)
        } else {
            proof {
                assert forall|v: ServerSettings| s@ != server_setting_name(v) by {
                    match v {
                        ServerSettings::Version => assert(s@ != "server.version"@),
                        ServerSettings::BaseUrl => assert(s@ != "server.baseUrl"@),
                        ServerSettings::BaseUrlWebDav => assert(s@ != "server.baseUrl.webdav"@),
                        ServerSettings::Sharing => assert(s@ != "server.sharing.enabled"@),
                        ServerSettings::Resharing => assert(s@ != "server.sharing.resharing"@),
                        ServerSettings::AutoComplete => assert(s@ != "server.sharing.autocomplete"@),
                        ServerSettings::SharingTypes => assert(s@ != "server.sharing.types"@),
                        ServerSettings::PrimaryColor => assert(s@ != "server.theme.color.primary"@),
                        ServerSettings::TextColor => assert(s@ != "server.theme.color.text"@),
                        ServerSettings::BackgroundColor => assert(s@ != "server.theme.color.background"@),
                        ServerSettings::BackgroundTheme => assert(s@ != "server.theme.background"@),
                        ServerSettings::Logo => assert(s@ != "server.theme.logo"@),
                        ServerSettings::Label => assert(s@ != "server.theme.label"@),
                        ServerSettings::AppIcon => assert(s@ != "server.theme.app.icon"@),
                        ServerSettings::FolderIcon => assert(s@ != "server.theme.folder.icon"@),
                    }
                }
            }
            None
        }
    }
}

/// An arbitrary client setting, held under the `client.` namespace.
#[derive(Debug)]
pub struct ClientSettings {
    pub name: String,
}

impl ClientSettings {
    /// The wire name of this setting: its name under the client namespace.
    pub fn setting_name(&self) -> (r: String)
        ensures
            r@ == "client."@ + self.name@,
    {
        "client.".to_owned().concat(self.name.as_str())
    }
}

impl crate::Sealed for UserSettings {

}

impl crate::Sealed for ServerSettings {

}

impl crate::Sealed for ClientSettings {

}

/// A way to map a setting to its wire name.  The set of setting groups is
/// closed: only the three groups of this module implement it.
pub trait Setting: crate::Sealed {
    fn name(&self) -> String;
}

impl Setting for UserSettings {
    fn name(&self) -> String {
        self.setting_name()
    }
}

impl Setting for ServerSettings {
    fn name(&self) -> String {
        self.setting_name()
    }
}

impl Setting for ClientSettings {
    fn name(&self) -> String {
        self.setting_name()
    }
}

/// Which settings the API can write: only user settings.
pub trait WritableSetting: Setting {

}

impl WritableSetting for UserSettings {

}

/// The name of any setting, of any group.
#[derive(Clone, Copy, Debug, PartialEq, Eq, Structural, Hash)]
pub enum SettingVariant {
    PasswordStrength,
    PasswordContainsNumber,
    PasswordContainsSpecial,
    CheckForDuplicates,
    CheckForOldPasswords,
    NotifySecurityByMail,
    NotifySharesByMail,
    NotifySecurityByNotification,
    NotifySharesByNotification,
    NotifyErrorsByNotification,
    ServerSideEncryption,
    ClientSideEncryption,
    SessionLifetime,
    Version,
    BaseUrl,
    BaseUrlWebDav,
    Sharing,
    Resharing,
    AutoComplete,
    SharingTypes,
    PrimaryColor,
    TextColor,
    BackgroundColor,
    BackgroundTheme,
    Logo,
    Label,
    AppIcon,
    FolderIcon,
    Client,
}

/// The wire name of a named setting; the client group has no single name.
pub open spec fn variant_name(v: SettingVariant) -> Seq<char> {
    match v {
        SettingVariant::PasswordStrength => "user.password.generator.strength"@,
        SettingVariant::PasswordContainsNumber => "user.password.generator.numbers"@,
        SettingVariant::PasswordContainsSpecial => "user.password.generator.special"@,
        SettingVariant::CheckForDuplicates => "user.password.security.duplicates"@,
        SettingVariant::CheckForOldPasswords => "user.password.security.age"@,
        SettingVariant::NotifySecurityByMail => "user.mail.security"@,
        SettingVariant::NotifySharesByMail => "user.mail.shares"@,
        SettingVariant::NotifySecurityByNotification => "user.notification.security"@,
        SettingVariant::NotifySharesByNotification => "user.notification.shares"@,
        SettingVariant::NotifyErrorsByNotification => "user.notification.errors"@,
        SettingVariant::ServerSideEncryption => "user.encryption.sse"@,
        SettingVariant::ClientSideEncryption => "user.encryption.cse"@,
        SettingVariant::SessionLifetime => "user.session.lifetime"@,
        SettingVariant::Version => "server.version"@,
        SettingVariant::BaseUrl => "server.baseUrl"@,
        SettingVariant::BaseUrlWebDav => "server.baseUrl.webdav"@,
        SettingVariant::Sharing => "server.sharing.enabled"@,
        SettingVariant::Resharing => "server.sharing.resharing"@,
        SettingVariant::AutoComplete => "server.sharing.autocomplete"@,
        SettingVariant::SharingTypes => "server.sharing.types"@,
        SettingVariant::PrimaryColor => "server.theme.color.primary"@,
        SettingVariant::TextColor => "server.theme.color.text"@,
        SettingVariant::BackgroundColor => "server.theme.color.background"@,
        SettingVariant::BackgroundTheme => "server.theme.background"@,
        SettingVariant::Logo => "server.theme.logo"@,
        SettingVariant::Label => "server.theme.label"@,
        SettingVariant::AppIcon => "server.theme.app.icon"@,
        SettingVariant::FolderIcon => "server.theme.folder.icon"@,
        SettingVariant::Client => Seq::empty(),
    }
}

impl SettingVariant {
    /// The wire name of this setting.  The client group is excluded: a
    /// client setting carries its own name.
    pub fn name(&self) -> (r: String)
        requires
            !(*self is Client),
        ensures
            r@ == variant_name(*self),
    {
        match self {
            SettingVariant::PasswordStrength => "user.password.generator.strength".to_owned(),
            SettingVariant::PasswordContainsNumber => "user.password.generator.numbers".to_owned(),
            SettingVariant::PasswordContainsSpecial => "user.password.generator.special".to_owned(),
            SettingVariant::CheckForDuplicates => "user.password.security.duplicates".to_owned(),
            SettingVariant::CheckForOldPasswords => "user.password.security.age".to_owned(),
            SettingVariant::NotifySecurityByMail => "user.mail.security".to_owned(),
            SettingVariant::NotifySharesByMail => "user.mail.shares".to_owned(),
            SettingVariant::NotifySecurityByNotification => "user.notification.security".to_owned(),
            SettingVariant::NotifySharesByNotification => "user.notification.shares".to_owned(),
            SettingVariant::NotifyErrorsByNotification => "user.notification.errors".to_owned(),
            SettingVariant::ServerSideEncryption => "user.encryption.sse".to_owned(),
            SettingVariant::ClientSideEncryption => "user.encryption.cse".to_owned(),
            SettingVariant::SessionLifetime => "user.session.lifetime".to_owned(),
            SettingVariant::Version => "server.version".to_owned(),
            SettingVariant::BaseUrl => "server.baseUrl".to_owned(),
            SettingVariant::BaseUrlWebDav => "server.baseUrl.webdav".to_owned(),
            SettingVariant::Sharing => "server.sharing.enabled".to_owned(),
            SettingVariant::Resharing => "server.sharing.resharing".to_owned(),
            SettingVariant::AutoComplete => "server.sharing.autocomplete".to_owned(),
            SettingVariant::SharingTypes => "server.sharing.types".to_owned(),
            SettingVariant::PrimaryColor => "server.theme.color.primary".to_owned(),
            SettingVariant::TextColor => "server.theme.color.text".to_owned(),
            SettingVariant::BackgroundColor => "server.theme.color.background".to_owned(),
            SettingVariant::BackgroundTheme => "server.theme.background".to_owned(),
            SettingVariant::Logo => "server.theme.logo".to_owned(),
            SettingVariant::Label => "server.theme.label".to_owned(),
            SettingVariant::AppIcon => "server.theme.app.icon".to_owned(),
            SettingVariant::FolderIcon => "server.theme.folder.icon".to_owned(),
            SettingVariant::Client => "".to_owned(),
        }
    }

    /// The named setting a wire name denotes.
    pub fn from_name(s: &str) -> (r: Option<SettingVariant>)
        ensures
            match r {
                Some(v) => s@ == variant_name(v) && !(v is Client),
                None => forall|v: SettingVariant| !(v is Client) ==> s@ != variant_name(v),
            },
    {
        if str_eq(s, "user.password.generator.strength") {
            Some(SettingVariant::PasswordStrength)
        } else if str_eq(s, "user.password.generator.numbers") {
            Some(SettingVariant::PasswordContainsNumber)
        } else if str_eq(s, "user.password.generator.special") {
            Some(SettingVariant::PasswordContainsSpecial)
        } else if str_eq(s, "user.password.security.duplicates") {
            Some(SettingVariant::CheckForDuplicates)
        } else if str_eq(s, "user.password.security.age") {
            Some(SettingVariant::CheckForOldPasswords)
        } else if str_eq(s, "user.mail.security") {
            Some(SettingVariant::NotifySecurityByMail)
        } else if str_eq(s, "user.mail.shares") {
            Some(SettingVariant::NotifySharesByMail)
        } else if str_eq(s, "user.notification.security") {
            Some(SettingVariant::NotifySecurityByNotification)
        } else if str_eq(s, "user.notification.shares") {
            Some(SettingVariant::NotifySharesByNotification)
        } else if str_eq(s, "user.notification.errors") {
            Some(SettingVariant::NotifyErrorsByNotification)
        } else if str_eq(s, "user.encryption.sse") {
            Some(SettingVariant::ServerSideEncryption)
        } else if str_eq(s, "user.encryption.cse") {
            Some(SettingVariant::ClientSideEncryption)
        } else if str_eq(s, "user.session.lifetime") {
            Some(SettingVariant::SessionLifetime)
        } else if str_eq(s, "server.version") {
            Some(SettingVariant::Version)
        } else if str_eq(s, "server.baseUrl") {
            Some(SettingVariant::BaseUrl)
        } else if str_eq(s, "server.baseUrl.webdav") {
            Some(SettingVariant::BaseUrlWebDav)
        } else if str_eq(s, "server.sharing.enabled") {
            Some(SettingVariant::Sharing)
        } else if str_eq(s, "server.sharing.resharing") {
            Some(SettingVariant::Resharing)
        } else if str_eq(s, "server.sharing.autocomplete") {
            Some(SettingVariant::AutoComplete)
        } else if str_eq(s, "server.sharing.types") {
            Some(SettingVariant::SharingTypes)
        } else if str_eq(s, "server.theme.color.primary") {
            Some(SettingVariant::PrimaryColor)
        } else if str_eq(s, "server.theme.color.text") {
            Some(SettingVariant::TextColor)
        } else if str_eq(s, "server.theme.color.background") {
            Some(SettingVariant::BackgroundColor)
        } else if str_eq(s, "server.theme.background") {
            Some(SettingVariant::BackgroundTheme)
        } else if str_eq(s, "server.theme.logo") {
            Some(SettingVariant::Logo)
        } else if str_eq(s, "server.theme.label") {
            Some(SettingVariant::Label)
        } else if str_eq(s, "server.theme.app.icon") {
            Some(SettingVariant::AppIcon)
        } else if str_eq(s, "server.theme.folder.icon") {
            Some(SettingVariant::FolderIcon)
        } else {
            proof {
                assert forall|v: SettingVariant| !(v is Client) implies s@ != variant_name(v) by {
                    match v {
                        SettingVariant::PasswordStrength => assert(s@ != "user.password.generator.strength"@),
                        SettingVariant::PasswordContainsNumber => assert(s@ != "user.password.generator.numbers"@),
                        SettingVariant::PasswordContainsSpecial => assert(s@ != "user.password.generator.special"@),
                        SettingVariant::CheckForDuplicates => assert(s@ != "user.password.security.duplicates"@),
                        SettingVariant::CheckForOldPasswords => assert(s@ != "user.password.security.age"@),
                        SettingVariant::NotifySecurityByMail => assert(s@ != "user.mail.security"@),
                        SettingVariant::NotifySharesByMail => assert(s@ != "user.mail.shares"@),
                        SettingVariant::NotifySecurityByNotification => assert(s@ != "user.notification.security"@),
                        SettingVariant::NotifySharesByNotification => assert(s@ != "user.notification.shares"@),
                        SettingVariant::NotifyErrorsByNotification => assert(s@ != "user.notification.errors"@),
                        SettingVariant::ServerSideEncryption => assert(s@ != "user.encryption.sse"@),
                        SettingVariant::ClientSideEncryption => assert(s@ != "user.encryption.cse"@),
                        SettingVariant::SessionLifetime => assert(s@ != "user.session.lifetime"@),
                        SettingVariant::Version => assert(s@ != "server.version"@),
                        SettingVariant::BaseUrl => assert(s@ != "server.baseUrl"@),
                        SettingVariant::BaseUrlWebDav => assert(s@ != "server.baseUrl.webdav"@),
                        SettingVariant::Sharing => assert(s@ != "server.sharing.enabled"@),
                        SettingVariant::Resharing => assert(s@ != "server.sharing.resharing"@),
                        SettingVariant::AutoComplete => assert(s@ != "server.sharing.autocomplete"@),
                        SettingVariant::SharingTypes => assert(s@ != "server.sharing.types"@),
                        SettingVariant::PrimaryColor => assert(s@ != "server.theme.color.primary"@),
                        SettingVariant::TextColor => assert(s@ != "server.theme.color.text"@),
                        SettingVariant::BackgroundColor => assert(s@ != "server.theme.color.background"@),
                        SettingVariant::BackgroundTheme => assert(s@ != "server.theme.background"@),
                        SettingVariant::Logo => assert(s@ != "server.theme.logo"@),
                        SettingVariant::Label => assert(s@ != "server.theme.label"@),
                        SettingVariant::AppIcon => assert(s@ != "server.theme.app.icon"@),
                        SettingVariant::FolderIcon => assert(s@ != "server.theme.folder.icon"@),
                        SettingVariant::Client => {},
                    }
                }
            }
            None
        }
    }
}

impl UserSettings {
    /// This setting among all named settings.
    pub fn to_variant(&self) -> (r: SettingVariant)
        ensures
            variant_name(r) == user_setting_name(*self),
            !(r is Client),
    {
        match self {
            UserSettings::PasswordStrength => SettingVariant::PasswordStrength,
            UserSettings::PasswordContainsNumber => SettingVariant::PasswordContainsNumber,
            UserSettings::PasswordContainsSpecial => SettingVariant::PasswordContainsSpecial,
            UserSettings::CheckForDuplicates => SettingVariant::CheckForDuplicates,
            UserSettings::CheckForOldPasswords => SettingVariant::CheckForOldPasswords,
            UserSettings::NotifySecurityByMail => SettingVariant::NotifySecurityByMail,
            UserSettings::NotifySharesByMail => SettingVariant::NotifySharesByMail,
            UserSettings::NotifySecurityByNotification => SettingVariant::NotifySecurityByNotification,
            UserSettings::NotifySharesByNotification => SettingVariant::NotifySharesByNotification,
            UserSettings::NotifyErrorsByNotification => SettingVariant::NotifyErrorsByNotification,
            UserSettings::ServerSideEncryption => SettingVariant::ServerSideEncryption,
            UserSettings::ClientSideEncryption => SettingVariant::ClientSideEncryption,
            UserSettings::SessionLifetime => SettingVariant::SessionLifetime,
        }
    }
}

impl ServerSettings {
    /// This setting among all named settings.
    pub fn to_variant(&self) -> (r: SettingVariant)
        ensures
            variant_name(r) == server_setting_name(*self),
            !(r is Client),
    {
        match self {
            ServerSettings::Version => SettingVariant::Version,
            ServerSettings::BaseUrl => SettingVariant::BaseUrl,
            ServerSettings::BaseUrlWebDav => SettingVariant::BaseUrlWebDav,
            ServerSettings::Sharing => SettingVariant::Sharing,
            ServerSettings::Resharing => SettingVariant::Resharing,
            ServerSettings::AutoComplete => SettingVariant::AutoComplete,
            ServerSettings::SharingTypes => SettingVariant::SharingTypes,
            ServerSettings::PrimaryColor => SettingVariant::PrimaryColor,
            ServerSettings::TextColor => SettingVariant::TextColor,
            ServerSettings::BackgroundColor => SettingVariant::BackgroundColor,
            ServerSettings::BackgroundTheme => SettingVariant::BackgroundTheme,
            ServerSettings::Logo => SettingVariant::Logo,
            ServerSettings::Label => SettingVariant::Label,
            ServerSettings::AppIcon => SettingVariant::AppIcon,
            ServerSettings::FolderIcon => SettingVariant::FolderIcon,
        }
    }
}

/// The typed value of a setting.
#[derive(Debug, PartialEq)]
pub enum SettingValue {
    PasswordStrength(i8),
    PasswordContainsNumber(bool),
    PasswordContainsSpecial(bool),
    CheckForDuplicates(bool),
    CheckForOldPasswords(i64),
    NotifySecurityByMail(bool),
    NotifySharesByMail(bool),
    NotifySecurityByNotification(bool),
    NotifySharesByNotification(bool),
    NotifyErrorsByNotification(bool),
    ServerSideEncryption(i8),
    ClientSideEncryption(i8),
    SessionLifetime(u64),
    Version(String),
    BaseUrl(String),
    BaseUrlWebDav(String),
    Sharing(bool),
    Resharing(bool),
    AutoComplete(bool),
    SharingTypes(Vec<String>),
    PrimaryColor(String),
    TextColor(String),
    BackgroundColor(String),
    BackgroundTheme(String),
    Logo(String),
    Label(String),
    AppIcon(String),
    FolderIcon(String),
    Client { name: String, value: String },
}

/// The setting a value belongs to.
pub open spec fn kind_of(v: SettingValue) -> SettingVariant {
    match v {
        SettingValue::PasswordStrength(_) => SettingVariant::PasswordStrength,
        SettingValue::PasswordContainsNumber(_) => SettingVariant::PasswordContainsNumber,
        SettingValue::PasswordContainsSpecial(_) => SettingVariant::PasswordContainsSpecial,
        SettingValue::CheckForDuplicates(_) => SettingVariant::CheckForDuplicates,
        SettingValue::CheckForOldPasswords(_) => SettingVariant::CheckForOldPasswords,
        SettingValue::NotifySecurityByMail(_) => SettingVariant::NotifySecurityByMail,
        SettingValue::NotifySharesByMail(_) => SettingVariant::NotifySharesByMail,
        SettingValue::NotifySecurityByNotification(_) => SettingVariant::NotifySecurityByNotification,
        SettingValue::NotifySharesByNotification(_) => SettingVariant::NotifySharesByNotification,
        SettingValue::NotifyErrorsByNotification(_) => SettingVariant::NotifyErrorsByNotification,
        SettingValue::ServerSideEncryption(_) => SettingVariant::ServerSideEncryption,
        SettingValue::ClientSideEncryption(_) => SettingVariant::ClientSideEncryption,
        SettingValue::SessionLifetime(_) => SettingVariant::SessionLifetime,
        SettingValue::Version(_) => SettingVariant::Version,
        SettingValue::BaseUrl(_) => SettingVariant::BaseUrl,
        SettingValue::BaseUrlWebDav(_) => SettingVariant::BaseUrlWebDav,
        SettingValue::Sharing(_) => SettingVariant::Sharing,
        SettingValue::Resharing(_) => SettingVariant::Resharing,
        SettingValue::AutoComplete(_) => SettingVariant::AutoComplete,
        SettingValue::SharingTypes(_) => SettingVariant::SharingTypes,
        SettingValue::PrimaryColor(_) => SettingVariant::PrimaryColor,
        SettingValue::TextColor(_) => SettingVariant::TextColor,
        SettingValue::BackgroundColor(_) => SettingVariant::BackgroundColor,
        SettingValue::BackgroundTheme(_) => SettingVariant::BackgroundTheme,
        SettingValue::Logo(_) => SettingVariant::Logo,
        SettingValue::Label(_) => SettingVariant::Label,
        SettingValue::AppIcon(_) => SettingVariant::AppIcon,
        SettingValue::FolderIcon(_) => SettingVariant::FolderIcon,
        SettingValue::Client { .. } => SettingVariant::Client,
    }
}

impl SettingValue {
    /// The setting this value belongs to.
    pub fn kind(&self) -> (r: SettingVariant)
        ensures
            r == kind_of(*self),
    {
        match self {
            SettingValue::PasswordStrength(_) => SettingVariant::PasswordStrength,
            SettingValue::PasswordContainsNumber(_) => SettingVariant::PasswordContainsNumber,
            SettingValue::PasswordContainsSpecial(_) => SettingVariant::PasswordContainsSpecial,
            SettingValue::CheckForDuplicates(_) => SettingVariant::CheckForDuplicates,
            SettingValue::CheckForOldPasswords(_) => SettingVariant::CheckForOldPasswords,
            SettingValue::NotifySecurityByMail(_) => SettingVariant::NotifySecurityByMail,
            SettingValue::NotifySharesByMail(_) => SettingVariant::NotifySharesByMail,
            SettingValue::NotifySecurityByNotification(_) => SettingVariant::NotifySecurityByNotification,
            SettingValue::NotifySharesByNotification(_) => SettingVariant::NotifySharesByNotification,
            SettingValue::NotifyErrorsByNotification(_) => SettingVariant::NotifyErrorsByNotification,
            SettingValue::ServerSideEncryption(_) => SettingVariant::ServerSideEncryption,
            SettingValue::ClientSideEncryption(_) => SettingVariant::ClientSideEncryption,
            SettingValue::SessionLifetime(_) => SettingVariant::SessionLifetime,
            SettingValue::Version(_) => SettingVariant::Version,
            SettingValue::BaseUrl(_) => SettingVariant::BaseUrl,
            SettingValue::BaseUrlWebDav(_) => SettingVariant::BaseUrlWebDav,
            SettingValue::Sharing(_) => SettingVariant::Sharing,
            SettingValue::Resharing(_) => SettingVariant::Resharing,
            SettingValue::AutoComplete(_) => SettingVariant::AutoComplete,
            SettingValue::SharingTypes(_) => SettingVariant::SharingTypes,
            SettingValue::PrimaryColor(_) => SettingVariant::PrimaryColor,
            SettingValue::TextColor(_) => SettingVariant::TextColor,
            SettingValue::BackgroundColor(_) => SettingVariant::BackgroundColor,
            SettingValue::BackgroundTheme(_) => SettingVariant::BackgroundTheme,
            SettingValue::Logo(_) => SettingVariant::Logo,
            SettingValue::Label(_) => SettingVariant::Label,
            SettingValue::AppIcon(_) => SettingVariant::AppIcon,
            SettingValue::FolderIcon(_) => SettingVariant::FolderIcon,
            SettingValue::Client { .. } => SettingVariant::Client,
        }
    }
}

/// The JSON shapes a named setting accepts.
pub open spec fn json_fits(variant: SettingVariant, v: JsonValue) -> bool {
    match variant {
        SettingVariant::PasswordStrength => (v is Int && -128 <= v->Int_0 <= 127) || (v is UInt && v->UInt_0 <= 127),
        SettingVariant::PasswordContainsNumber => v is Bool,
        SettingVariant::PasswordContainsSpecial => v is Bool,
        SettingVariant::CheckForDuplicates => v is Bool,
        SettingVariant::CheckForOldPasswords => v is Int || (v is UInt && v->UInt_0 <= i64::MAX),
        SettingVariant::NotifySecurityByMail => v is Bool,
        SettingVariant::NotifySharesByMail => v is Bool,
        SettingVariant::NotifySecurityByNotification => v is Bool,
        SettingVariant::NotifySharesByNotification => v is Bool,
        SettingVariant::NotifyErrorsByNotification => v is Bool,
        SettingVariant::ServerSideEncryption => (v is Int && -128 <= v->Int_0 <= 127) || (v is UInt && v->UInt_0 <= 127),
        SettingVariant::ClientSideEncryption => (v is Int && -128 <= v->Int_0 <= 127) || (v is UInt && v->UInt_0 <= 127),
        SettingVariant::SessionLifetime => v is UInt || (v is Int && v->Int_0 >= 0),
        SettingVariant::Version => v is Str,
        SettingVariant::BaseUrl => v is Str,
        SettingVariant::BaseUrlWebDav => v is Str,
        SettingVariant::Sharing => v is Bool,
        SettingVariant::Resharing => v is Bool,
        SettingVariant::AutoComplete => v is Bool,
        SettingVariant::SharingTypes => v is Arr && (forall|j: int| 0 <= j < v->Arr_0@.len() ==> (#[trigger] v->Arr_0@[j]) is Str),
        SettingVariant::PrimaryColor => v is Str,
        SettingVariant::TextColor => v is Str,
        SettingVariant::BackgroundColor => v is Str,
        SettingVariant::BackgroundTheme => v is Str,
        SettingVariant::Logo => v is Str,
        SettingVariant::Label => v is Str,
        SettingVariant::AppIcon => v is Str,
        SettingVariant::FolderIcon => v is Str,
        SettingVariant::Client => false,
    }
}

/// `v` is a wire form of the setting value `val`.
pub open spec fn represents(val: SettingValue, v: JsonValue) -> bool {
    match val {
        SettingValue::PasswordStrength(x) => v == JsonValue::Int(x as i64) || (x >= 0 && v == JsonValue::UInt(x as u64)),
        SettingValue::PasswordContainsNumber(x) => v == JsonValue::Bool(x),
        SettingValue::PasswordContainsSpecial(x) => v == JsonValue::Bool(x),
        SettingValue::CheckForDuplicates(x) => v == JsonValue::Bool(x),
        SettingValue::CheckForOldPasswords(x) => v == JsonValue::Int(x) || (x >= 0 && v == JsonValue::UInt(x as u64)),
        SettingValue::NotifySecurityByMail(x) => v == JsonValue::Bool(x),
        SettingValue::NotifySharesByMail(x) => v == JsonValue::Bool(x),
        SettingValue::NotifySecurityByNotification(x) => v == JsonValue::Bool(x),
        SettingValue::NotifySharesByNotification(x) => v == JsonValue::Bool(x),
        SettingValue::NotifyErrorsByNotification(x) => v == JsonValue::Bool(x),
        SettingValue::ServerSideEncryption(x) => v == JsonValue::Int(x as i64) || (x >= 0 && v == JsonValue::UInt(x as u64)),
        SettingValue::ClientSideEncryption(x) => v == JsonValue::Int(x as i64) || (x >= 0 && v == JsonValue::UInt(x as u64)),
        SettingValue::SessionLifetime(x) => v == JsonValue::UInt(x) || (x <= i64::MAX && v == JsonValue::Int(x as i64)),
        SettingValue::Version(x) => v == JsonValue::Str(x),
        SettingValue::BaseUrl(x) => v == JsonValue::Str(x),
        SettingValue::BaseUrlWebDav(x) => v == JsonValue::Str(x),
        SettingValue::Sharing(x) => v == JsonValue::Bool(x),
        SettingValue::Resharing(x) => v == JsonValue::Bool(x),
        SettingValue::AutoComplete(x) => v == JsonValue::Bool(x),
        SettingValue::SharingTypes(x) => v is Arr && v->Arr_0@.len() == x@.len() && (forall|j: int| 0 <= j < x@.len() ==> (#[trigger] v->Arr_0@[j]) == JsonValue::Str(x@[j])),
        SettingValue::PrimaryColor(x) => v == JsonValue::Str(x),
        SettingValue::TextColor(x) => v == JsonValue::Str(x),
        SettingValue::BackgroundColor(x) => v == JsonValue::Str(x),
        SettingValue::BackgroundTheme(x) => v == JsonValue::Str(x),
        SettingValue::Logo(x) => v == JsonValue::Str(x),
        SettingValue::Label(x) => v == JsonValue::Str(x),
        SettingValue::AppIcon(x) => v == JsonValue::Str(x),
        SettingValue::FolderIcon(x) => v == JsonValue::Str(x),
        SettingValue::Client { name, value } => v == JsonValue::Str(value),
    }
}

fn read_i8(v: &JsonValue) -> (r: Option<i8>)
    ensures
        r is Some <==> ((*v is Int && -128 <= v->Int_0 <= 127) || (*v is UInt && v->UInt_0 <= 127)),
        r matches Some(x) ==> (*v == JsonValue::Int(x as i64) || (x >= 0 && *v == JsonValue::UInt(
            x as u64,
        ))),
{
    match v {
        JsonValue::Int(x) => {
            if -128 <= *x && *x <= 127 {
                Some(*x as i8)
            } else {
                None
            }
        },
        JsonValue::UInt(x) => {
            if *x <= 127 {
                Some(*x as i8)
            } else {
                None
            }
        },
        _ => None,
    }
}

fn read_bool(v: &JsonValue) -> (r: Option<bool>)
    ensures
        r is Some <==> *v is Bool,
        r matches Some(x) ==> *v == JsonValue::Bool(x),
{
    match v {
        JsonValue::Bool(b) => Some(*b),
        _ => None,
    }
}

fn read_i64(v: &JsonValue) -> (r: Option<i64>)
    ensures
        r is Some <==> (*v is Int || (*v is UInt && v->UInt_0 <= i64::MAX)),
        r matches Some(x) ==> (*v == JsonValue::Int(x) || (x >= 0 && *v == JsonValue::UInt(
            x as u64,
        ))),
{
    match v {
        JsonValue::Int(x) => Some(*x),
        JsonValue::UInt(x) => {
            if *x <= i64::MAX as u64 {
                Some(*x as i64)
            } else {
                None
            }
        },
        _ => None,
    }
}

fn read_u64(v: &JsonValue) -> (r: Option<u64>)
    ensures
        r is Some <==> (*v is UInt || (*v is Int && v->Int_0 >= 0)),
        r matches Some(x) ==> (*v == JsonValue::UInt(x) || (x <= i64::MAX && *v == JsonValue::Int(
            x as i64,
        ))),
{
    match v {
        JsonValue::UInt(x) => Some(*x),
        JsonValue::Int(x) => {
            if *x >= 0 {
                Some(*x as u64)
            } else {
                None
            }
        },
        _ => None,
    }
}

fn read_string(v: &JsonValue) -> (r: Option<String>)
    ensures
        r is Some <==> *v is Str,
        r matches Some(x) ==> *v == JsonValue::Str(x),
{
    match v {
        JsonValue::Str(s) => Some(s.clone()),
        _ => None,
    }
}

fn read_string_list(v: &JsonValue) -> (r: Option<Vec<String>>)
    ensures
        r is Some <==> (*v is Arr && (forall|j: int|
            0 <= j < v->Arr_0@.len() ==> (#[trigger] v->Arr_0@[j]) is Str)),
        r matches Some(xs) ==> xs@.len() == v->Arr_0@.len() && (forall|j: int|
            0 <= j < xs@.len() ==> (#[trigger] v->Arr_0@[j]) == JsonValue::Str(xs@[j])),
{
    match v {
        JsonValue::Arr(items) => {
            let mut out: Vec<String> = Vec::new();
            let n = items.len();
            let mut j: usize = 0;
            while j < n
                invariant
                    0 <= j <= n == items@.len(),
                    *v is Arr && v->Arr_0@ == items@,
                    out@.len() == j,
                    forall|k: int|
                        0 <= k < j ==> (#[trigger] items@[k]) == JsonValue::Str(out@[k]),
                decreases n - j,
            {
                match &items[j] {
                    JsonValue::Str(s) => {
                        out.push(s.clone());
                    },
                    _ => {
                        proof {
                            assert(!((v->Arr_0@[j as int]) is Str));
                        }
                        return None;
                    },
                }
                j = j + 1;
            }
            Some(out)
        },
        _ => None,
    }
}

/// Reads the typed value of a named setting from its wire form.  The client
/// group is rejected as invalid in this context; a wire form of the wrong
/// shape is a decoding error.
pub fn variant_value_from_json(variant: SettingVariant, v: &JsonValue) -> (r: Result<
    SettingValue,
    Error,
>)
    ensures
        variant is Client ==> r == Err::<SettingValue, Error>(Error::InvalidSetting),
        !(variant is Client) && !json_fits(variant, *v) ==> r == Err::<SettingValue, Error>(
            Error::Decode,
        ),
        r is Ok <==> (!(variant is Client) && json_fits(variant, *v)),
        r matches Ok(val) ==> kind_of(val) == variant && represents(val, *v),
{
    match variant {
        SettingVariant::PasswordStrength => match read_i8(v) {
            Some(x) => Ok(SettingValue::PasswordStrength(x)),
            None => Err(Error::Decode),
        },
        SettingVariant::PasswordContainsNumber => match read_bool(v) {
            Some(x) => Ok(SettingValue::PasswordContainsNumber(x)),
            None => Err(Error::Decode),
        },
        SettingVariant::PasswordContainsSpecial => match read_bool(v) {
            Some(x) => Ok(SettingValue::PasswordContainsSpecial(x)),
            None => Err(Error::Decode),
        },
        SettingVariant::CheckForDuplicates => match read_bool(v) {
            Some(x) => Ok(SettingValue::CheckForDuplicates(x)),
            None => Err(Error::Decode),
        },
        SettingVariant::CheckForOldPasswords => match read_i64(v) {
            Some(x) => Ok(SettingValue::CheckForOldPasswords(x)),
            None => Err(Error::Decode),
        },
        SettingVariant::NotifySecurityByMail => match read_bool(v) {
            Some(x) => Ok(SettingValue::NotifySecurityByMail(x)),
            None => Err(Error::Decode),
        },
        SettingVariant::NotifySharesByMail => match read_bool(v) {
            Some(x) => Ok(SettingValue::NotifySharesByMail(x)),
            None => Err(Error::Decode),
        },
        SettingVariant::NotifySecurityByNotification => match read_bool(v) {
            Some(x) => Ok(SettingValue::NotifySecurityByNotification(x)),
            None => Err(Error::Decode),
        },
        SettingVariant::NotifySharesByNotification => match read_bool(v) {
            Some(x) => Ok(SettingValue::NotifySharesByNotification(x)),
            None => Err(Error::Decode),
        },
        SettingVariant::NotifyErrorsByNotification => match read_bool(v) {
            Some(x) => Ok(SettingValue::NotifyErrorsByNotification(x)),
            None => Err(Error::Decode),
        },
        SettingVariant::ServerSideEncryption => match read_i8(v) {
            Some(x) => Ok(SettingValue::ServerSideEncryption(x)),
            None => Err(Error::Decode),
        },
        SettingVariant::ClientSideEncryption => match read_i8(v) {
            Some(x) => Ok(SettingValue::ClientSideEncryption(x)),
            None => Err(Error::Decode),
        },
        SettingVariant::SessionLifetime => match read_u64(v) {
            Some(x) => Ok(SettingValue::SessionLifetime(x)),
            None => Err(Error::Decode),
        },
        SettingVariant::Version => match read_string(v) {
            Some(x) => Ok(SettingValue::Version(x)),
            None => Err(Error::Decode),
        },
        SettingVariant::BaseUrl => match read_string(v) {
            Some(x) => Ok(SettingValue::BaseUrl(x)),
            None => Err(Error::Decode),
        },
        SettingVariant::BaseUrlWebDav => match read_string(v) {
            Some(x) => Ok(SettingValue::BaseUrlWebDav(x)),
            None => Err(Error::Decode),
        },
        SettingVariant::Sharing => match read_bool(v) {
            Some(x) => Ok(SettingValue::Sharing(x)),
            None => Err(Error::Decode),
        },
        SettingVariant::Resharing => match read_bool(v) {
            Some(x) => Ok(SettingValue::Resharing(x)),
            None => Err(Error::Decode),
        },
        SettingVariant::AutoComplete => match read_bool(v) {
            Some(x) => Ok(SettingValue::AutoComplete(x)),
            None => Err(Error::Decode),
        },
        SettingVariant::SharingTypes => match read_string_list(v) {
            Some(x) => Ok(SettingValue::SharingTypes(x)),
            None => Err(Error::Decode),
        },
        SettingVariant::PrimaryColor => match read_string(v) {
            Some(x) => Ok(SettingValue::PrimaryColor(x)),
            None => Err(Error::Decode),
        },
        SettingVariant::TextColor => match read_string(v) {
            Some(x) => Ok(SettingValue::TextColor(x)),
            None => Err(Error::Decode),
        },
        SettingVariant::BackgroundColor => match read_string(v) {
            Some(x) => Ok(SettingValue::BackgroundColor(x)),
            None => Err(Error::Decode),
        },
        SettingVariant::BackgroundTheme => match read_string(v) {
            Some(x) => Ok(SettingValue::BackgroundTheme(x)),
            None => Err(Error::Decode),
        },
        SettingVariant::Logo => match read_string(v) {
            Some(x) => Ok(SettingValue::Logo(x)),
            None => Err(Error::Decode),
        },
        SettingVariant::Label => match read_string(v) {
            Some(x) => Ok(SettingValue::Label(x)),
            None => Err(Error::Decode),
        },
        SettingVariant::AppIcon => match read_string(v) {
            Some(x) => Ok(SettingValue::AppIcon(x)),
            None => Err(Error::Decode),
        },
        SettingVariant::FolderIcon => match read_string(v) {
            Some(x) => Ok(SettingValue::FolderIcon(x)),
            None => Err(Error::Decode),
        },
        SettingVariant::Client => Err(Error::InvalidSetting),
    }
}

/// Reads the typed value of a user setting from its string form, as a
/// stored settings file renders it.
pub fn user_value_from_str(variant: UserSettings, value: &str) -> (r: Result<
    SettingValue,
    ParseError,
>)
    ensures
        match variant {
            UserSettings::PasswordStrength => {
                &&& (r is Ok <==> (is_int_str(value@) && -128 <= int_val(value@) <= 127))
                &&& (r matches Ok(val) ==> val == SettingValue::PasswordStrength(int_val(value@) as i8))
                &&& (r is Err ==> r == Err::<SettingValue, ParseError>(ParseError::Number))
            },
            UserSettings::PasswordContainsNumber => {
                &&& (r is Ok <==> ((value@ == "true"@ || value@ == "false"@)))
                &&& (r matches Ok(val) ==> val == SettingValue::PasswordContainsNumber(value@ == "true"@))
                &&& (r is Err ==> r == Err::<SettingValue, ParseError>(ParseError::Boolean))
            },
            UserSettings::PasswordContainsSpecial => {
                &&& (r is Ok <==> ((value@ == "true"@ || value@ == "false"@)))
                &&& (r matches Ok(val) ==> val == SettingValue::PasswordContainsSpecial(value@ == "true"@))
                &&& (r is Err ==> r == Err::<SettingValue, ParseError>(ParseError::Boolean))
            },
            UserSettings::CheckForDuplicates => {
                &&& (r is Ok <==> ((value@ == "true"@ || value@ == "false"@)))
                &&& (r matches Ok(val) ==> val == SettingValue::CheckForDuplicates(value@ == "true"@))
                &&& (r is Err ==> r == Err::<SettingValue, ParseError>(ParseError::Boolean))
            },
            UserSettings::CheckForOldPasswords => {
                &&& (r is Ok <==> (is_int_str(value@) && i64::MIN <= int_val(value@) <= i64::MAX))
                &&& (r matches Ok(val) ==> val == SettingValue::CheckForOldPasswords(int_val(value@) as i64))
                &&& (r is Err ==> r == Err::<SettingValue, ParseError>(ParseError::Number))
            },
            UserSettings::NotifySecurityByMail => {
                &&& (r is Ok <==> ((value@ == "true"@ || value@ == "false"@)))
                &&& (r matches Ok(val) ==> val == SettingValue::NotifySecurityByMail(value@ == "true"@))
                &&& (r is Err ==> r == Err::<SettingValue, ParseError>(ParseError::Boolean))
            },
            UserSettings::NotifySharesByMail => {
                &&& (r is Ok <==> ((value@ == "true"@ || value@ == "false"@)))
                &&& (r matches Ok(val) ==> val == SettingValue::NotifySharesByMail(value@ == "true"@))
                &&& (r is Err ==> r == Err::<SettingValue, ParseError>(ParseError::Boolean))
            },
            UserSettings::NotifySecurityByNotification => {
                &&& (r is Ok <==> ((value@ == "true"@ || value@ == "false"@)))
                &&& (r matches Ok(val) ==> val == SettingValue::NotifySecurityByNotification(value@ == "true"@))
                &&& (r is Err ==> r == Err::<SettingValue, ParseError>(ParseError::Boolean))
            },
            UserSettings::NotifySharesByNotification => {
                &&& (r is Ok <==> ((value@ == "true"@ || value@ == "false"@)))
                &&& (r matches Ok(val) ==> val == SettingValue::NotifySharesByNotification(value@ == "true"@))
                &&& (r is Err ==> r == Err::<SettingValue, ParseError>(ParseError::Boolean))
            },
            UserSettings::NotifyErrorsByNotification => {
                &&& (r is Ok <==> ((value@ == "true"@ || value@ == "false"@)))
                &&& (r matches Ok(val) ==> val == SettingValue::NotifyErrorsByNotification(value@ == "true"@))
                &&& (r is Err ==> r == Err::<SettingValue, ParseError>(ParseError::Boolean))
            },
            UserSettings::ServerSideEncryption => {
                &&& (r is Ok <==> (is_int_str(value@) && -128 <= int_val(value@) <= 127))
                &&& (r matches Ok(val) ==> val == SettingValue::ServerSideEncryption(int_val(value@) as i8))
                &&& (r is Err ==> r == Err::<SettingValue, ParseError>(ParseError::Number))
            },
            UserSettings::ClientSideEncryption => {
                &&& (r is Ok <==> (is_int_str(value@) && -128 <= int_val(value@) <= 127))
                &&& (r matches Ok(val) ==> val == SettingValue::ClientSideEncryption(int_val(value@) as i8))
                &&& (r is Err ==> r == Err::<SettingValue, ParseError>(ParseError::Number))
            },
            UserSettings::SessionLifetime => {
                &&& (r is Ok <==> (value@.len() > 0 && all_digits(value@) && dec_val(value@) <= u64::MAX))
                &&& (r matches Ok(val) ==> val == SettingValue::SessionLifetime(dec_val(value@) as u64))
                &&& (r is Err ==> r == Err::<SettingValue, ParseError>(ParseError::Number))
            },
        },
{
    match variant {
        UserSettings::PasswordStrength => match parse_i64(value) {
            Some(x) => {
                if -128 <= x && x <= 127 {
                    Ok(SettingValue::PasswordStrength(x as i8))
                } else {
                    Err(ParseError::Number)
                }
            },
            None => Err(ParseError::Number),
        },
        UserSettings::PasswordContainsNumber => match parse_bool(value) {
            Some(b) => Ok(SettingValue::PasswordContainsNumber(b)),
            None => Err(ParseError::Boolean),
        },
        UserSettings::PasswordContainsSpecial => match parse_bool(value) {
            Some(b) => Ok(SettingValue::PasswordContainsSpecial(b)),
            None => Err(ParseError::Boolean),
        },
        UserSettings::CheckForDuplicates => match parse_bool(value) {
            Some(b) => Ok(SettingValue::CheckForDuplicates(b)),
            None => Err(ParseError::Boolean),
        },
        UserSettings::CheckForOldPasswords => match parse_i64(value) {
            Some(x) => Ok(SettingValue::CheckForOldPasswords(x)),
            None => Err(ParseError::Number),
        },
        UserSettings::NotifySecurityByMail => match parse_bool(value) {
            Some(b) => Ok(SettingValue::NotifySecurityByMail(b)),
            None => Err(ParseError::Boolean),
        },
        UserSettings::NotifySharesByMail => match parse_bool(value) {
            Some(b) => Ok(SettingValue::NotifySharesByMail(b)),
            None => Err(ParseError::Boolean),
        },
        UserSettings::NotifySecurityByNotification => match parse_bool(value) {
            Some(b) => Ok(SettingValue::NotifySecurityByNotification(b)),
            None => Err(ParseError::Boolean),
        },
        UserSettings::NotifySharesByNotification => match parse_bool(value) {
            Some(b) => Ok(SettingValue::NotifySharesByNotification(b)),
            None => Err(ParseError::Boolean),
        },
        UserSettings::NotifyErrorsByNotification => match parse_bool(value) {
            Some(b) => Ok(SettingValue::NotifyErrorsByNotification(b)),
            None => Err(ParseError::Boolean),
        },
        UserSettings::ServerSideEncryption => match parse_i64(value) {
            Some(x) => {
                if -128 <= x && x <= 127 {
                    Ok(SettingValue::ServerSideEncryption(x as i8))
                } else {
                    Err(ParseError::Number)
                }
            },
            None => Err(ParseError::Number),
        },
        UserSettings::ClientSideEncryption => match parse_i64(value) {
            Some(x) => {
                if -128 <= x && x <= 127 {
                    Ok(SettingValue::ClientSideEncryption(x as i8))
                } else {
                    Err(ParseError::Number)
                }
            },
            None => Err(ParseError::Number),
        },
        UserSettings::SessionLifetime => match parse_u64(value) {
            Some(x) => Ok(SettingValue::SessionLifetime(x)),
            None => Err(ParseError::Number),
        },
    }
}

/// The wire names of all user settings, in declaration order.
pub fn user_setting_names() -> (r: Vec<String>)
    ensures
        r@.len() == 13,
        r@[0]@ == "user.password.generator.strength"@,
        r@[1]@ == "user.password.generator.numbers"@,
        r@[2]@ == "user.password.generator.special"@,
        r@[3]@ == "user.password.security.duplicates"@,
        r@[4]@ == "user.password.security.age"@,
        r@[5]@ == "user.mail.security"@,
        r@[6]@ == "user.mail.shares"@,
        r@[7]@ == "user.notification.security"@,
        r@[8]@ == "user.notification.shares"@,
        r@[9]@ == "user.notification.errors"@,
        r@[10]@ == "user.encryption.sse"@,
        r@[11]@ == "user.encryption.cse"@,
        r@[12]@ == "user.session.lifetime"@,
{
    vec![
        "user.password.generator.strength".to_owned(),
        "user.password.generator.numbers".to_owned(),
        "user.password.generator.special".to_owned(),
        "user.password.security.duplicates".to_owned(),
        "user.password.security.age".to_owned(),
        "user.mail.security".to_owned(),
        "user.mail.shares".to_owned(),
        "user.notification.security".to_owned(),
        "user.notification.shares".to_owned(),
        "user.notification.errors".to_owned(),
        "user.encryption.sse".to_owned(),
        "user.encryption.cse".to_owned(),
        "user.session.lifetime".to_owned(),
    ]
}

/// The wire names of all server settings, in declaration order.
pub fn server_setting_names() -> (r: Vec<String>)
    ensures
        r@.len() == 15,
        r@[0]@ == "server.version"@,
        r@[1]@ == "server.baseUrl"@,
        r@[2]@ == "server.baseUrl.webdav"@,
        r@[3]@ == "server.sharing.enabled"@,
        r@[4]@ == "server.sharing.resharing"@,
        r@[5]@ == "server.sharing.autocomplete"@,
        r@[6]@ == "server.sharing.types"@,
        r@[7]@ == "server.theme.color.primary"@,
        r@[8]@ == "server.theme.color.text"@,
        r@[9]@ == "server.theme.color.background"@,
        r@[10]@ == "server.theme.background"@,
        r@[11]@ == "server.theme.logo"@,
        r@[12]@ == "server.theme.label"@,
        r@[13]@ == "server.theme.app.icon"@,
        r@[14]@ == "server.theme.folder.icon"@,
{
    vec![
        "server.version".to_owned(),
        "server.baseUrl".to_owned(),
        "server.baseUrl.webdav".to_owned(),
        "server.sharing.enabled".to_owned(),
        "server.sharing.resharing".to_owned(),
        "server.sharing.autocomplete".to_owned(),
        "server.sharing.types".to_owned(),
        "server.theme.color.primary".to_owned(),
        "server.theme.color.text".to_owned(),
        "server.theme.color.background".to_owned(),
        "server.theme.background".to_owned(),
        "server.theme.logo".to_owned(),
        "server.theme.label".to_owned(),
        "server.theme.app.icon".to_owned(),
        "server.theme.folder.icon".to_owned(),
    ]
}

/// The wire names of all named settings: the user settings first, then the server settings.
pub fn settings_names() -> (r: Vec<String>)
    ensures
        r@.len() == 28,
        r@[0]@ == "user.password.generator.strength"@,
        r@[1]@ == "user.password.generator.numbers"@,
        r@[2]@ == "user.password.generator.special"@,
        r@[3]@ == "user.password.security.duplicates"@,
        r@[4]@ == "user.password.security.age"@,
        r@[5]@ == "user.mail.security"@,
        r@[6]@ == "user.mail.shares"@,
        r@[7]@ == "user.notification.security"@,
        r@[8]@ == "user.notification.shares"@,
        r@[9]@ == "user.notification.errors"@,
        r@[10]@ == "user.encryption.sse"@,
        r@[11]@ == "user.encryption.cse"@,
        r@[12]@ == "user.session.lifetime"@,
        r@[13]@ == "server.version"@,
        r@[14]@ == "server.baseUrl"@,
        r@[15]@ == "server.baseUrl.webdav"@,
        r@[16]@ == "server.sharing.enabled"@,
        r@[17]@ == "server.sharing.resharing"@,
        r@[18]@ == "server.sharing.autocomplete"@,
        r@[19]@ == "server.sharing.types"@,
        r@[20]@ == "server.theme.color.primary"@,
        r@[21]@ == "server.theme.color.text"@,
        r@[22]@ == "server.theme.color.background"@,
        r@[23]@ == "server.theme.background"@,
        r@[24]@ == "server.theme.logo"@,
        r@[25]@ == "server.theme.label"@,
        r@[26]@ == "server.theme.app.icon"@,
        r@[27]@ == "server.theme.folder.icon"@,
{
    vec![
        "user.password.generator.strength".to_owned(),
        "user.password.generator.numbers".to_owned(),
        "user.password.generator.special".to_owned(),
        "user.password.security.duplicates".to_owned(),
        "user.password.security.age".to_owned(),
        "user.mail.security".to_owned(),
        "user.mail.shares".to_owned(),
        "user.notification.security".to_owned(),
        "user.notification.shares".to_owned(),
        "user.notification.errors".to_owned(),
        "user.encryption.sse".to_owned(),
        "user.encryption.cse".to_owned(),
        "user.session.lifetime".to_owned(),
        "server.version".to_owned(),
        "server.baseUrl".to_owned(),
        "server.baseUrl.webdav".to_owned(),
        "server.sharing.enabled".to_owned(),
        "server.sharing.resharing".to_owned(),
        "server.sharing.autocomplete".to_owned(),
        "server.sharing.types".to_owned(),
        "server.theme.color.primary".to_owned(),
        "server.theme.color.text".to_owned(),
        "server.theme.color.background".to_owned(),
        "server.theme.background".to_owned(),
        "server.theme.logo".to_owned(),
        "server.theme.label".to_owned(),
        "server.theme.app.icon".to_owned(),
        "server.theme.folder.icon".to_owned(),
    ]
}

/// The wire name of a setting value, client settings included.
pub open spec fn value_name_spec(val: SettingValue) -> Seq<char> {
    match val {
        SettingValue::Client { name, value } => "client."@ + name@,
        _ => variant_name(kind_of(val)),
    }
}

/// The canonical wire form of a setting value: signed numbers for the small
/// integer settings, the unsigned form for the lifetime, strings and string
/// lists as they stand.
pub open spec fn value_json_canon(val: SettingValue, v: JsonValue) -> bool {
    match val {
        SettingValue::PasswordStrength(x) => v == JsonValue::Int(x as i64),
        SettingValue::PasswordContainsNumber(x) => v == JsonValue::Bool(x),
        SettingValue::PasswordContainsSpecial(x) => v == JsonValue::Bool(x),
        SettingValue::CheckForDuplicates(x) => v == JsonValue::Bool(x),
        SettingValue::CheckForOldPasswords(x) => v == JsonValue::Int(x),
        SettingValue::NotifySecurityByMail(x) => v == JsonValue::Bool(x),
        SettingValue::NotifySharesByMail(x) => v == JsonValue::Bool(x),
        SettingValue::NotifySecurityByNotification(x) => v == JsonValue::Bool(x),
        SettingValue::NotifySharesByNotification(x) => v == JsonValue::Bool(x),
        SettingValue::NotifyErrorsByNotification(x) => v == JsonValue::Bool(x),
        SettingValue::ServerSideEncryption(x) => v == JsonValue::Int(x as i64),
        SettingValue::ClientSideEncryption(x) => v == JsonValue::Int(x as i64),
        SettingValue::SessionLifetime(x) => v == JsonValue::UInt(x),
        SettingValue::Version(x) => v == JsonValue::Str(x),
        SettingValue::BaseUrl(x) => v == JsonValue::Str(x),
        SettingValue::BaseUrlWebDav(x) => v == JsonValue::Str(x),
        SettingValue::Sharing(x) => v == JsonValue::Bool(x),
        SettingValue::Resharing(x) => v == JsonValue::Bool(x),
        SettingValue::AutoComplete(x) => v == JsonValue::Bool(x),
        SettingValue::SharingTypes(x) => v is Arr && v->Arr_0@.len() == x@.len() && (forall|j: int| 0 <= j < x@.len() ==> (#[trigger] v->Arr_0@[j]) == JsonValue::Str(x@[j])),
        SettingValue::PrimaryColor(x) => v == JsonValue::Str(x),
        SettingValue::TextColor(x) => v == JsonValue::Str(x),
        SettingValue::BackgroundColor(x) => v == JsonValue::Str(x),
        SettingValue::BackgroundTheme(x) => v == JsonValue::Str(x),
        SettingValue::Logo(x) => v == JsonValue::Str(x),
        SettingValue::Label(x) => v == JsonValue::Str(x),
        SettingValue::AppIcon(x) => v == JsonValue::Str(x),
        SettingValue::FolderIcon(x) => v == JsonValue::Str(x),
        SettingValue::Client { name, value } => v == JsonValue::Str(value),
    }
}

/// One wire entry of a settings write: the setting's wire name and its
/// canonical wire form.
fn value_entry(val: SettingValue) -> (r: (String, JsonValue))
    ensures
        r.0@ == value_name_spec(val),
        value_json_canon(val, r.1),
{
    match val {
        SettingValue::PasswordStrength(x) => ("user.password.generator.strength".to_owned(), JsonValue::Int(x as i64)),
        SettingValue::PasswordContainsNumber(x) => ("user.password.generator.numbers".to_owned(), JsonValue::Bool(x)),
        SettingValue::PasswordContainsSpecial(x) => ("user.password.generator.special".to_owned(), JsonValue::Bool(x)),
        SettingValue::CheckForDuplicates(x) => ("user.password.security.duplicates".to_owned(), JsonValue::Bool(x)),
        SettingValue::CheckForOldPasswords(x) => ("user.password.security.age".to_owned(), JsonValue::Int(x)),
        SettingValue::NotifySecurityByMail(x) => ("user.mail.security".to_owned(), JsonValue::Bool(x)),
        SettingValue::NotifySharesByMail(x) => ("user.mail.shares".to_owned(), JsonValue::Bool(x)),
        SettingValue::NotifySecurityByNotification(x) => ("user.notification.security".to_owned(), JsonValue::Bool(x)),
        SettingValue::NotifySharesByNotification(x) => ("user.notification.shares".to_owned(), JsonValue::Bool(x)),
        SettingValue::NotifyErrorsByNotification(x) => ("user.notification.errors".to_owned(), JsonValue::Bool(x)),
        SettingValue::ServerSideEncryption(x) => ("user.encryption.sse".to_owned(), JsonValue::Int(x as i64)),
        SettingValue::ClientSideEncryption(x) => ("user.encryption.cse".to_owned(), JsonValue::Int(x as i64)),
        SettingValue::SessionLifetime(x) => ("user.session.lifetime".to_owned(), JsonValue::UInt(x)),
        SettingValue::Version(x) => ("server.version".to_owned(), JsonValue::Str(x)),
        SettingValue::BaseUrl(x) => ("server.baseUrl".to_owned(), JsonValue::Str(x)),
        SettingValue::BaseUrlWebDav(x) => ("server.baseUrl.webdav".to_owned(), JsonValue::Str(x)),
        SettingValue::Sharing(x) => ("server.sharing.enabled".to_owned(), JsonValue::Bool(x)),
        SettingValue::Resharing(x) => ("server.sharing.resharing".to_owned(), JsonValue::Bool(x)),
        SettingValue::AutoComplete(x) => ("server.sharing.autocomplete".to_owned(), JsonValue::Bool(x)),
        SettingValue::SharingTypes(x) => {
            let mut items: Vec<JsonValue> = Vec::new();
            let ghost xs = x@;
            let mut rest = x;
            proof {
                assert(xs.skip(0) =~= xs);
            }
            while rest.len() > 0
                invariant
                    rest@ == xs.skip(xs.len() - rest@.len()),
                    rest@.len() <= xs.len(),
                    items@.len() == xs.len() - rest@.len(),
                    forall|j: int|
                        0 <= j < items@.len() ==> (#[trigger] items@[j]) == JsonValue::Str(xs[j]),
                decreases rest@.len(),
            {
                let ghost done = xs.len() - rest@.len();
                let s = rest.remove(0);
                proof {
                    assert(xs.skip(done)[0] == xs[done]);
                    assert(xs.skip(done).drop_first() =~= xs.skip(done + 1));
                }
                items.push(JsonValue::Str(s));
            }
            ("server.sharing.types".to_owned(), JsonValue::Arr(items))
        },
        SettingValue::PrimaryColor(x) => ("server.theme.color.primary".to_owned(), JsonValue::Str(x)),
        SettingValue::TextColor(x) => ("server.theme.color.text".to_owned(), JsonValue::Str(x)),
        SettingValue::BackgroundColor(x) => ("server.theme.color.background".to_owned(), JsonValue::Str(x)),
        SettingValue::BackgroundTheme(x) => ("server.theme.background".to_owned(), JsonValue::Str(x)),
        SettingValue::Logo(x) => ("server.theme.logo".to_owned(), JsonValue::Str(x)),
        SettingValue::Label(x) => ("server.theme.label".to_owned(), JsonValue::Str(x)),
        SettingValue::AppIcon(x) => ("server.theme.app.icon".to_owned(), JsonValue::Str(x)),
        SettingValue::FolderIcon(x) => ("server.theme.folder.icon".to_owned(), JsonValue::Str(x)),
        SettingValue::Client { name, value } => {
            ("client.".to_owned().concat(name.as_str()), JsonValue::Str(value))
        },
    }
}

/// A sparse set of setting values to write.
#[derive(Debug)]
pub struct Settings {
    pub values: Vec<SettingValue>,
}

impl Settings {
    /// An empty settings set.
    pub fn new() -> (r: Settings)
        ensures
            r.values@.len() == 0,
    {
        Settings { values: Vec::new() }
    }

    /// Adds one value to the set.
    pub fn set_value(self, value: SettingValue) -> (r: Settings)
        ensures
            r.values@ == self.values@.push(value),
    {
        let mut values = self.values;
        values.push(value);
        Settings { values }
    }
}

/// The settings write: one POST to the settings-set endpoint, carrying one
/// entry per value under the setting's wire name.
pub fn settings_set_request(settings: Settings) -> (r: Request)
    ensures
        r.verb == Verb::Post,
        r.path@ == "1.0/settings/set"@,
        r.body matches JsonValue::Obj(ps) && ps@.len() == settings.values@.len() && (forall|i: int|
            0 <= i < ps@.len() ==> (#[trigger] ps@[i]).0@ == value_name_spec(settings.values@[i])
                && value_json_canon(settings.values@[i], ps@[i].1)),
{
    let ghost vals = settings.values@;
    let mut rest = settings.values;
    let mut ps: Vec<(String, JsonValue)> = Vec::new();
    proof {
        assert(vals.skip(0) =~= vals);
    }
    while rest.len() > 0
        invariant
            rest@ == vals.skip(vals.len() - rest@.len()),
            rest@.len() <= vals.len(),
            ps@.len() == vals.len() - rest@.len(),
            forall|i: int|
                0 <= i < ps@.len() ==> (#[trigger] ps@[i]).0@ == value_name_spec(vals[i])
                    && value_json_canon(vals[i], ps@[i].1),
        decreases rest@.len(),
    {
        let ghost done = vals.len() - rest@.len();
        let val = rest.remove(0);
        proof {
            assert(vals.skip(done)[0] == vals[done]);
            assert(vals.skip(done).drop_first() =~= vals.skip(done + 1));
        }
        let entry = value_entry(val);
        ps.push(entry);
    }
    Request { verb: Verb::Post, path: "1.0/settings/set".to_owned(), body: JsonValue::Obj(ps) }
}

fn names_request(path: String, names: Vec<String>) -> (r: Request)
    ensures
        r.verb == Verb::Post,
        r.path == path,
        r.body matches JsonValue::Arr(items) && items@.len() == names@.len() && (forall|i: int|
            0 <= i < items@.len() ==> (#[trigger] items@[i]) == JsonValue::Str(names@[i])),
{
    let ghost ns = names@;
    let mut rest = names;
    let mut items: Vec<JsonValue> = Vec::new();
    proof {
        assert(ns.skip(0) =~= ns);
    }
    while rest.len() > 0
        invariant
            rest@ == ns.skip(ns.len() - rest@.len()),
            rest@.len() <= ns.len(),
            items@.len() == ns.len() - rest@.len(),
            forall|i: int|
                0 <= i < items@.len() ==> (#[trigger] items@[i]) == JsonValue::Str(ns[i]),
        decreases rest@.len(),
    {
        let ghost done = ns.len() - rest@.len();
        let name = rest.remove(0);
        proof {
            assert(ns.skip(done)[0] == ns[done]);
            assert(ns.skip(done).drop_first() =~= ns.skip(done + 1));
        }
        items.push(JsonValue::Str(name));
    }
    Request { verb: Verb::Post, path, body: JsonValue::Arr(items) }
}

/// The settings read: one POST to the settings-get endpoint, asking for the
/// given wire names.
pub fn settings_get_request(names: Vec<String>) -> (r: Request)
    ensures
        r.verb == Verb::Post,
        r.path@ == "1.0/settings/get"@,
        r.body matches JsonValue::Arr(items) && items@.len() == names@.len() && (forall|i: int|
            0 <= i < items@.len() ==> (#[trigger] items@[i]) == JsonValue::Str(names@[i])),
{
    names_request("1.0/settings/get".to_owned(), names)
}

/// The settings reset: one POST to the settings-reset endpoint, restoring
/// the given settings to their defaults.
pub fn settings_reset_request(names: Vec<String>) -> (r: Request)
    ensures
        r.verb == Verb::Post,
        r.path@ == "1.0/settings/reset"@,
        r.body matches JsonValue::Arr(items) && items@.len() == names@.len() && (forall|i: int|
            0 <= i < items@.len() ==> (#[trigger] items@[i]) == JsonValue::Str(names@[i])),
{
    names_request("1.0/settings/reset".to_owned(), names)
}

/// Reads one named setting out of a settings-get response, which carries
/// one entry per asked name.  Asking for the client group this way is
/// invalid; a missing or ill-shaped entry is a decoding error.
pub fn single_setting_from_response(variant: SettingVariant, v: &JsonValue) -> (r: Result<
    SettingValue,
    Error,
>)
    ensures
        variant is Client ==> r == Err::<SettingValue, Error>(Error::InvalidSetting),
        r is Ok <==> (!(variant is Client) && *v is Obj && (lookup_first(
            v->Obj_0@,
            variant_name(variant),
        ) matches Some(x) && json_fits(variant, x))),
        r matches Ok(val) ==> kind_of(val) == variant && represents(
            val,
            lookup_first(v->Obj_0@, variant_name(variant))->0,
        ),
{
    match variant {
        SettingVariant::Client => Err(Error::InvalidSetting),
        _ => {
            let name = variant.name();
            match v {
                JsonValue::Obj(pairs) => {
                    match crate::json::obj_get(pairs, name.as_str()) {
                        Some(value) => variant_value_from_json(variant, value),
                        None => Err(Error::Decode),
                    }
                },
                _ => Err(Error::Decode),
            }
        },
    }
}

/// Reads the session lifetime, in seconds, out of a settings-get response:
/// the keepalive interval a fresh session queries right after opening.
pub fn session_lifetime_from_response(v: &JsonValue) -> (r: Result<u64, Error>)
    ensures
        r is Ok <==> (*v is Obj && (lookup_first(v->Obj_0@, "user.session.lifetime"@) matches Some(
            x,
        ) && (x is UInt || (x is Int && x->Int_0 >= 0)))),
        r matches Ok(lifetime) ==> {
            let x = lookup_first(v->Obj_0@, "user.session.lifetime"@)->0;
            x == JsonValue::UInt(lifetime) || (lifetime <= i64::MAX && x == JsonValue::Int(
                lifetime as i64,
            ))
        },
        r is Err ==> r == Err::<u64, Error>(Error::Decode),
{
    match v {
        JsonValue::Obj(pairs) => {
            match crate::json::obj_get(pairs, "user.session.lifetime") {
                Some(value) => match read_u64(value) {
                    Some(x) => Ok(x),
                    None => Err(Error::Decode),
                },
                None => Err(Error::Decode),
            }
        },
        _ => Err(Error::Decode),
    }
}

} // verus!
