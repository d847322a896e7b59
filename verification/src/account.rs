//! Minecraft accounts: what a login gives, where skins are kept, and the
//! texts exchanged with Xbox Live on the way.
use vstd::prelude::*;

use crate::bindings::{hyphenated_uuid, uuid_text};
use crate::paths::{join_path, path_join};

verus! {

/// A token and when it expires, in seconds since the Unix epoch.
#[derive(Debug)]
pub struct AccountToken {
    pub token: String,
    pub expires_at: i64,
}

/// The model a skin is made for.
#[derive(Clone, Copy, Debug, PartialEq, Eq, Structural)]
pub enum MinecraftSkinVariant {
    Classic,
    Slim,
}

/// A skin of an account. The id is the UUID's value.
#[derive(Debug)]
pub struct MinecraftSkin {
    pub id: u128,
    pub state: String,
    pub url: String,
    pub variant: MinecraftSkinVariant,
}

/// A cape of an account. The id is the UUID's value.
#[derive(Debug)]
pub struct MinecraftCape {
    pub id: u128,
    pub state: String,
    pub url: String,
    pub alias: String,
}

/// A logged-in Minecraft account. The uuid is the UUID's value.
#[derive(Debug)]
pub struct MinecraftAccount {
    pub username: String,
    pub uuid: u128,
    pub access_token: AccountToken,
    pub refresh_token: AccountToken,
    pub skins: Vec<MinecraftSkin>,
    pub capes: Vec<MinecraftCape>,
}

/// The profile the Minecraft services report for a token.
#[derive(Debug)]
pub struct MinecraftUserProfile {
    pub id: u128,
    pub name: String,
    pub skins: Vec<MinecraftSkin>,
    pub capes: Vec<MinecraftCape>,
}

/// The launcher's data directory under the system's data directory `base`.
pub open spec fn data_dir_of(base: Seq<char>) -> Seq<char> {
    path_join(base, "era-connect"@)
}

/// The launcher's data directory under the system's data directory `base`.
pub fn data_dir(base: &str) -> (r: String)
    ensures
        r@ == data_dir_of(base@),
{
    join_path(base, "era-connect")
}

/// The directory of the skin with UUID `id` under the data directory.
pub open spec fn skin_directory_of(data_dir: Seq<char>, id: u128) -> Seq<char> {
    path_join(path_join(data_dir, "skins"@), hyphenated_uuid(id))
}

impl MinecraftSkin {
    /// The directory of the skin's files: `skins/<uuid>` under the data directory.
    pub fn get_skin_directory(&self, data_dir: &str) -> (r: String)
        ensures
            r@ == skin_directory_of(data_dir@, self.id),
    {
        let skins = join_path(data_dir, "skins");
        let id = uuid_text(self.id);
        join_path(skins.as_str(), id.as_str())
    }

    /// Where the player head cut from the skin is kept: `head.png` in the skin's directory.
    pub fn get_head_file_path(&self, data_dir: &str) -> (r: String)
        ensures
            r@ == path_join(skin_directory_of(data_dir@, self.id), "head.png"@),
    {
        let dir = self.get_skin_directory(data_dir);
        join_path(dir.as_str(), "head.png")
    }

    /// Where the skin as downloaded is kept: `raw.png` in the skin's directory.
    pub fn get_raw_file_path(&self, data_dir: &str) -> (r: String)
        ensures
            r@ == path_join(skin_directory_of(data_dir@, self.id), "raw.png"@),
    {
        let dir = self.get_skin_directory(data_dir);
        join_path(dir.as_str(), "raw.png")
    }
}

/// The path of the player head cut from `skin`, as text.
pub fn get_skin_file_path(skin: MinecraftSkin, data_dir: &str) -> (r: String)
    ensures
        r@ == path_join(skin_directory_of(data_dir@, skin.id), "head.png"@),
{
    skin.get_head_file_path(data_dir)
}

/// The account a finished login gives: the profile's name, UUID, skins and
/// capes, with the Minecraft access token and the Microsoft refresh token and
/// their expiry times.
pub fn assemble_account(
    profile: MinecraftUserProfile,
    access_token: String,
    access_expires_at: i64,
    refresh_token: String,
    refresh_expires_at: i64,
) -> (r: MinecraftAccount)
    ensures
        r.username == profile.name,
        r.uuid == profile.id,
        r.access_token == (AccountToken { token: access_token, expires_at: access_expires_at }),
        r.refresh_token == (AccountToken { token: refresh_token, expires_at: refresh_expires_at }),
        r.skins == profile.skins,
        r.capes == profile.capes,
{
    MinecraftAccount {
        username: profile.name,
        uuid: profile.id,
        access_token: AccountToken { token: access_token, expires_at: access_expires_at },
        refresh_token: AccountToken { token: refresh_token, expires_at: refresh_expires_at },
        capes: profile.capes,
        skins: profile.skins,
    }
}

/// The steps of a login.
#[derive(Clone, Copy, Debug, PartialEq, Eq, Structural)]
pub enum LoginFlowStage {
    FetchingDeviceCode,
    WaitingForUser,
    AuthenticatingXboxLive,
    FetchingXstsToken,
    FetchingMinecraftToken,
    GettingProfile,
}

/// Why Xbox Live refused an XSTS token.
#[derive(Clone, Copy, Debug, PartialEq, Eq, Structural)]
pub enum XstsTokenErrorType {
    DoesNotHaveXboxAccount,
    CountryNotAvailable,
    NeedsAdultVerificationKR1,
    NeedsAdultVerificationKR2,
    ChildAccount,
}

/// The `XErr` code Xbox Live sends for each refusal.
pub open spec fn xsts_code(e: XstsTokenErrorType) -> u64 {
    match e {
        XstsTokenErrorType::DoesNotHaveXboxAccount => 2_148_916_233,
        XstsTokenErrorType::CountryNotAvailable => 2_148_916_235,
        XstsTokenErrorType::NeedsAdultVerificationKR1 => 2_148_916_236,
        XstsTokenErrorType::NeedsAdultVerificationKR2 => 2_148_916_237,
        XstsTokenErrorType::ChildAccount => 2_148_916_238,
    }
}

impl XstsTokenErrorType {
    /// The `XErr` code of the refusal.
    pub fn code(&self) -> (r: u64)
        ensures
            r == xsts_code(*self),
    {
        match self {
            XstsTokenErrorType::DoesNotHaveXboxAccount => 2_148_916_233,
            XstsTokenErrorType::CountryNotAvailable => 2_148_916_235,
            XstsTokenErrorType::NeedsAdultVerificationKR1 => 2_148_916_236,
            XstsTokenErrorType::NeedsAdultVerificationKR2 => 2_148_916_237,
            XstsTokenErrorType::ChildAccount => 2_148_916_238,
        }
    }

    /// The refusal that the `XErr` code `code` stands for, if any.
    pub fn from_code(code: u64) -> (r: Option<Self>)
        ensures
            match r {
                Some(e) => xsts_code(e) == code,
                None => forall|e: XstsTokenErrorType| xsts_code(e) != code,
            },
    {
        if code == 2_148_916_233 {
            Some(XstsTokenErrorType::DoesNotHaveXboxAccount)
        } else if code == 2_148_916_235 {
            Some(XstsTokenErrorType::CountryNotAvailable)
        } else if code == 2_148_916_236 {
            Some(XstsTokenErrorType::NeedsAdultVerificationKR1)
        } else if code == 2_148_916_237 {
            Some(XstsTokenErrorType::NeedsAdultVerificationKR2)
        } else if code == 2_148_916_238 {
            Some(XstsTokenErrorType::ChildAccount)
        } else {
            None
        }
    }
}

/// Errors of a login that the library decides.
#[derive(Debug)]
pub enum LoginFlowError {
    /// Xbox Live refused the XSTS token.
    XstsError { source: XstsTokenErrorType },
    /// The Xbox Live answer names no user.
    MissingXboxLiveUserHash,
}

/// The RPS ticket sent to Xbox Live for a Microsoft access token: `d=` and the token.
pub fn rps_ticket(ms_access_token: &str) -> (r: String)
    ensures
        r@ == "d="@ + ms_access_token@,
{
    let mut out = String::from_str("d=");
    out.append(ms_access_token);
    out
}

/// The identity token sent to the Minecraft services: `XBL3.0 x=`, the user
/// hash, `;` and the XSTS token.
pub fn identity_token(user_hash: &str, xsts_token: &str) -> (r: String)
    ensures
        r@ == "XBL3.0 x="@ + user_hash@ + ";"@ + xsts_token@,
{
    let mut out = String::from_str("XBL3.0 x=");
    out.append(user_hash);
    out.append(";");
    out.append(xsts_token);
    out
}

/// The user hash of an Xbox Live answer: that of its first claim. Fails with
/// `MissingXboxLiveUserHash` when there is none.
pub fn xbox_user_hash(claims: &Vec<String>) -> (r: Result<String, LoginFlowError>)
    ensures
        claims@.len() == 0 <==> (r matches Err(LoginFlowError::MissingXboxLiveUserHash)),
        r matches Ok(h) ==> claims@.len() > 0 && h == claims@[0],
        !(r matches Err(LoginFlowError::XstsError { .. })),
{
    if claims.len() == 0 {
        Err(LoginFlowError::MissingXboxLiveUserHash)
    } else {
        Ok(claims[0].clone())
    }
}

} // verus!
