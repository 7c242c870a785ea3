//! The domain records that extraction produces, with their mathematical
//! views, well-formedness conditions, and the closed text vocabularies that
//! enumerated fields are parsed from.

use vstd::prelude::*;

use crate::error::TibiaError;
use crate::text::str_eq;
use crate::time::CalendarDate;
use crate::time::UtcDateTime;

verus! {

/// A town name.
#[derive(Debug, Clone, PartialEq)]
pub struct Town(pub String);

impl View for Town {
    type V = Seq<char>;

    open spec fn view(&self) -> Seq<char> {
        self.0@
    }
}

impl DeepView for Town {
    type V = Seq<char>;

    open spec fn deep_view(&self) -> Seq<char> {
        self.0@
    }
}

/// A character's calling, from the closed eight-entry vocabulary.
#[derive(Clone, Copy, Debug, PartialEq, Eq, Structural)]
pub enum Vocation {
    Knight,
    EliteKnight,
    Sorcerer,
    MasterSorcerer,
    Druid,
    ElderDruid,
    Paladin,
    RoyalPaladin,
}

impl Vocation {
    pub open spec fn spec_from_str(s: Seq<char>) -> Option<Vocation> {
        if s == "Knight"@ {
            Some(Vocation::Knight)
        } else if s == "Elite Knight"@ {
            Some(Vocation::EliteKnight)
        } else if s == "Sorcerer"@ {
            Some(Vocation::Sorcerer)
        } else if s == "Master Sorcerer"@ {
            Some(Vocation::MasterSorcerer)
        } else if s == "Druid"@ {
            Some(Vocation::Druid)
        } else if s == "Elder Druid"@ {
            Some(Vocation::ElderDruid)
        } else if s == "Paladin"@ {
            Some(Vocation::Paladin)
        } else if s == "Royal Paladin"@ {
            Some(Vocation::RoyalPaladin)
        } else {
            None
        }
    }

    /// Every value outside the closed vocabulary is a parse failure.
    pub fn from_str(s: &str) -> (r: Result<Vocation, TibiaError>)
        ensures
            match r {
                Ok(v) => Self::spec_from_str(s@) == Some(v),
                Err(e) => Self::spec_from_str(s@) is None && e
                    == TibiaError::UnexpectedPageContent,
            },
    {
        if str_eq(s, "Knight") {
            Ok(Vocation::Knight)
        } else if str_eq(s, "Elite Knight") {
            Ok(Vocation::EliteKnight)
        } else if str_eq(s, "Sorcerer") {
            Ok(Vocation::Sorcerer)
        } else if str_eq(s, "Master Sorcerer") {
            Ok(Vocation::MasterSorcerer)
        } else if str_eq(s, "Druid") {
            Ok(Vocation::Druid)
        } else if str_eq(s, "Elder Druid") {
            Ok(Vocation::ElderDruid)
        } else if str_eq(s, "Paladin") {
            Ok(Vocation::Paladin)
        } else if str_eq(s, "Royal Paladin") {
            Ok(Vocation::RoyalPaladin)
        } else {
            Err(TibiaError::UnexpectedPageContent)
        }
    }
}

/// A world's player-versus-player ruleset.
#[derive(Clone, Copy, Debug, PartialEq, Eq, Structural)]
pub enum PvpType {
    Open,
    Optional,
    Hardcore,
    RetroOpen,
    RetroHardcore,
}

impl PvpType {
    pub open spec fn spec_from_str(s: Seq<char>) -> Option<PvpType> {
        if s == "Open PvP"@ {
            Some(PvpType::Open)
        } else if s == "Optional PvP"@ {
            Some(PvpType::Optional)
        } else if s == "Hardcore PvP"@ {
            Some(PvpType::Hardcore)
        } else if s == "Retro Open PvP"@ {
            Some(PvpType::RetroOpen)
        } else if s == "Retro Hardcore PvP"@ {
            Some(PvpType::RetroHardcore)
        } else {
            None
        }
    }

    pub fn from_str(s: &str) -> (r: Result<PvpType, TibiaError>)
        ensures
            match r {
                Ok(v) => Self::spec_from_str(s@) == Some(v),
                Err(e) => Self::spec_from_str(s@) is None && e
                    == TibiaError::UnexpectedPageContent,
            },
    {
        if str_eq(s, "Open PvP") {
            Ok(PvpType::Open)
        } else if str_eq(s, "Optional PvP") {
            Ok(PvpType::Optional)
        } else if str_eq(s, "Hardcore PvP") {
            Ok(PvpType::Hardcore)
        } else if str_eq(s, "Retro Open PvP") {
            Ok(PvpType::RetroOpen)
        } else if str_eq(s, "Retro Hardcore PvP") {
            Ok(PvpType::RetroHardcore)
        } else {
            Err(TibiaError::UnexpectedPageContent)
        }
    }
}

/// Where a world's server is hosted.
#[derive(Clone, Copy, Debug, PartialEq, Eq, Structural)]
pub enum Location {
    Europe,
    SouthAmerica,
    NorthAmerica,
    Oceania,
}

impl Location {
    pub open spec fn spec_from_str(s: Seq<char>) -> Option<Location> {
        if s == "Europe"@ {
            Some(Location::Europe)
        } else if s == "North America"@ {
            Some(Location::NorthAmerica)
        } else if s == "South America"@ {
            Some(Location::SouthAmerica)
        } else if s == "Oceania"@ {
            Some(Location::Oceania)
        } else {
            None
        }
    }

    pub fn from_str(s: &str) -> (r: Result<Location, TibiaError>)
        ensures
            match r {
                Ok(v) => Self::spec_from_str(s@) == Some(v),
                Err(e) => Self::spec_from_str(s@) is None && e
                    == TibiaError::UnexpectedPageContent,
            },
    {
        if str_eq(s, "Europe") {
            Ok(Location::Europe)
        } else if str_eq(s, "North America") {
            Ok(Location::NorthAmerica)
        } else if str_eq(s, "South America") {
            Ok(Location::SouthAmerica)
        } else if str_eq(s, "Oceania") {
            Ok(Location::Oceania)
        } else {
            Err(TibiaError::UnexpectedPageContent)
        }
    }
}

/// Regular or experimental game world.
#[derive(Clone, Copy, Debug, PartialEq, Eq, Structural)]
pub enum GameWorldType {
    Regular,
    Experimental,
}

impl GameWorldType {
    pub open spec fn spec_from_str(s: Seq<char>) -> GameWorldType {
        if s == "experimental"@ {
            GameWorldType::Experimental
        } else {
            GameWorldType::Regular
        }
    }

    /// Any value other than the experimental marker reads as regular.
    pub fn from_str(s: &str) -> (r: GameWorldType)
        ensures
            r == Self::spec_from_str(s@),
    {
        if str_eq(s, "experimental") {
            GameWorldType::Experimental
        } else {
            GameWorldType::Regular
        }
    }
}

/// Whether transfers out of a world are restricted.
#[derive(Clone, Copy, Debug, PartialEq, Eq, Structural)]
pub enum TransferType {
    Blocked,
    Locked,
}

impl TransferType {
    pub open spec fn spec_from_str(s: Seq<char>) -> Option<TransferType> {
        if s == "blocked"@ {
            Some(TransferType::Blocked)
        } else if s == "locked"@ {
            Some(TransferType::Locked)
        } else {
            None
        }
    }

    pub fn from_str(s: &str) -> (r: Result<TransferType, TibiaError>)
        ensures
            match r {
                Ok(v) => Self::spec_from_str(s@) == Some(v),
                Err(e) => Self::spec_from_str(s@) is None && e
                    == TibiaError::UnexpectedPageContent,
            },
    {
        if str_eq(s, "blocked") {
            Ok(TransferType::Blocked)
        } else if str_eq(s, "locked") {
            Ok(TransferType::Locked)
        } else {
            Err(TibiaError::UnexpectedPageContent)
        }
    }
}

/// A character's sex.
#[derive(Clone, Copy, Debug, PartialEq, Eq, Structural)]
pub enum Sex {
    Male,
    Female,
}

impl Sex {
    pub open spec fn spec_from_str(s: Seq<char>) -> Option<Sex> {
        if s == "male"@ {
            Some(Sex::Male)
        } else if s == "female"@ {
            Some(Sex::Female)
        } else {
            None
        }
    }

    pub fn from_str(s: &str) -> (r: Result<Sex, TibiaError>)
        ensures
            match r {
                Ok(v) => Self::spec_from_str(s@) == Some(v),
                Err(e) => Self::spec_from_str(s@) is None && e
                    == TibiaError::UnexpectedPageContent,
            },
    {
        if str_eq(s, "male") {
            Ok(Sex::Male)
        } else if str_eq(s, "female") {
            Ok(Sex::Female)
        } else {
            Err(TibiaError::UnexpectedPageContent)
        }
    }
}

/// A player seen online on a world.
#[derive(Debug, Clone, PartialEq)]
pub struct Player {
    pub name: String,
    pub level: u32,
    pub vocation: Option<Vocation>,
}

pub struct PlayerView {
    pub name: Seq<char>,
    pub level: u32,
    pub vocation: Option<Vocation>,
}

impl View for Player {
    type V = PlayerView;

    open spec fn view(&self) -> PlayerView {
        PlayerView { name: self.name@, level: self.level, vocation: self.vocation }
    }
}

impl DeepView for Player {
    type V = PlayerView;

    open spec fn deep_view(&self) -> PlayerView {
        self.view()
    }
}

/// A guild on a world; `active` tells a fully founded guild from one still
/// in formation, by which of the two tables its row came from.
#[derive(Debug, Clone, PartialEq)]
pub struct Guild {
    pub logo: Option<String>,
    pub name: String,
    pub description: Option<String>,
    pub active: bool,
}

pub struct GuildView {
    pub logo: Option<Seq<char>>,
    pub name: Seq<char>,
    pub description: Option<Seq<char>>,
    pub active: bool,
}

impl View for Guild {
    type V = GuildView;

    open spec fn view(&self) -> GuildView {
        GuildView {
            logo: self.logo.deep_view(),
            name: self.name@,
            description: self.description.deep_view(),
            active: self.active,
        }
    }
}

impl DeepView for Guild {
    type V = GuildView;

    open spec fn deep_view(&self) -> GuildView {
        self.view()
    }
}

/// Players killed and monsters killed over one window.
#[derive(Debug, Clone, Copy, PartialEq, Eq, Structural)]
pub struct KilledAmounts {
    pub killed_players: u32,
    pub killed_by_players: u32,
}

/// One race's kill statistics.
#[derive(Debug, Clone, PartialEq)]
pub struct RaceKillStatistics {
    pub race: String,
    pub last_day: KilledAmounts,
    pub last_week: KilledAmounts,
}

pub struct RaceKillStatisticsView {
    pub race: Seq<char>,
    pub last_day: KilledAmounts,
    pub last_week: KilledAmounts,
}

impl View for RaceKillStatistics {
    type V = RaceKillStatisticsView;

    open spec fn view(&self) -> RaceKillStatisticsView {
        RaceKillStatisticsView {
            race: self.race@,
            last_day: self.last_day,
            last_week: self.last_week,
        }
    }
}

impl DeepView for RaceKillStatistics {
    type V = RaceKillStatisticsView;

    open spec fn deep_view(&self) -> RaceKillStatisticsView {
        self.view()
    }
}

/// A world's kill statistics: the reported "Total" aggregates, split out of
/// the per-race list.
#[derive(Debug, Clone, PartialEq)]
pub struct KillStatistics {
    pub total_last_day: KilledAmounts,
    pub total_last_week: KilledAmounts,
    pub races: Vec<RaceKillStatistics>,
}

pub struct KillStatisticsView {
    pub total_last_day: KilledAmounts,
    pub total_last_week: KilledAmounts,
    pub races: Seq<RaceKillStatisticsView>,
}

impl View for KillStatistics {
    type V = KillStatisticsView;

    open spec fn view(&self) -> KillStatisticsView {
        KillStatisticsView {
            total_last_day: self.total_last_day,
            total_last_week: self.total_last_week,
            races: self.races.deep_view(),
        }
    }
}

/// One world in the worlds overview.
#[derive(Debug, Clone, PartialEq)]
pub struct World {
    pub name: String,
    pub players_online_count: u32,
    pub location: Location,
    pub pvp_type: PvpType,
    pub battl_eye: bool,
    pub battl_eye_date: Option<CalendarDate>,
    pub premium_required: bool,
    pub transfer_type: Option<TransferType>,
    pub game_world_type: GameWorldType,
}

pub struct WorldView {
    pub name: Seq<char>,
    pub players_online_count: u32,
    pub location: Location,
    pub pvp_type: PvpType,
    pub battl_eye: bool,
    pub battl_eye_date: Option<CalendarDate>,
    pub premium_required: bool,
    pub transfer_type: Option<TransferType>,
    pub game_world_type: GameWorldType,
}

impl View for World {
    type V = WorldView;

    open spec fn view(&self) -> WorldView {
        WorldView {
            name: self.name@,
            players_online_count: self.players_online_count,
            location: self.location,
            pvp_type: self.pvp_type,
            battl_eye: self.battl_eye,
            battl_eye_date: self.battl_eye_date,
            premium_required: self.premium_required,
            transfer_type: self.transfer_type,
            game_world_type: self.game_world_type,
        }
    }
}

impl DeepView for World {
    type V = WorldView;

    open spec fn deep_view(&self) -> WorldView {
        self.view()
    }
}

impl World {
    /// A BattlEye enablement date is only carried by a world that has
    /// BattlEye enabled.
    pub open spec fn wf(self) -> bool {
        self.battl_eye_date is Some ==> self.battl_eye
    }
}

/// The worlds overview: the global record, its date, and every world.
#[derive(Debug, Clone, PartialEq)]
pub struct WorldsResponse {
    pub players_online_total: u32,
    pub record_players: u32,
    pub record_date: UtcDateTime,
    pub worlds: Vec<World>,
}

pub struct WorldsResponseView {
    pub players_online_total: u32,
    pub record_players: u32,
    pub record_date: UtcDateTime,
    pub worlds: Seq<WorldView>,
}

impl View for WorldsResponse {
    type V = WorldsResponseView;

    open spec fn view(&self) -> WorldsResponseView {
        WorldsResponseView {
            players_online_total: self.players_online_total,
            record_players: self.record_players,
            record_date: self.record_date,
            worlds: self.worlds.deep_view(),
        }
    }
}

/// The details page of one world.
#[derive(Debug, Clone, PartialEq)]
pub struct WorldDetails {
    pub name: String,
    pub is_online: bool,
    pub players_online_count: u32,
    pub players_online_record: u32,
    pub players_online_record_date: UtcDateTime,
    pub creation_date: CalendarDate,
    pub location: Location,
    pub pvp_type: PvpType,
    pub world_quest_titles: Vec<String>,
    pub battl_eye: bool,
    pub battl_eye_date: Option<CalendarDate>,
    pub game_world_type: GameWorldType,
    pub transfer_type: Option<TransferType>,
    pub premium_required: bool,
    pub players_online: Vec<Player>,
}

pub struct WorldDetailsView {
    pub name: Seq<char>,
    pub is_online: bool,
    pub players_online_count: u32,
    pub players_online_record: u32,
    pub players_online_record_date: UtcDateTime,
    pub creation_date: CalendarDate,
    pub location: Location,
    pub pvp_type: PvpType,
    pub world_quest_titles: Seq<Seq<char>>,
    pub battl_eye: bool,
    pub battl_eye_date: Option<CalendarDate>,
    pub game_world_type: GameWorldType,
    pub transfer_type: Option<TransferType>,
    pub premium_required: bool,
    pub players_online: Seq<PlayerView>,
}

impl View for WorldDetails {
    type V = WorldDetailsView;

    open spec fn view(&self) -> WorldDetailsView {
        WorldDetailsView {
            name: self.name@,
            is_online: self.is_online,
            players_online_count: self.players_online_count,
            players_online_record: self.players_online_record,
            players_online_record_date: self.players_online_record_date,
            creation_date: self.creation_date,
            location: self.location,
            pvp_type: self.pvp_type,
            world_quest_titles: self.world_quest_titles.deep_view(),
            battl_eye: self.battl_eye,
            battl_eye_date: self.battl_eye_date,
            game_world_type: self.game_world_type,
            transfer_type: self.transfer_type,
            premium_required: self.premium_required,
            players_online: self.players_online.deep_view(),
        }
    }
}

impl WorldDetails {
    pub open spec fn wf(self) -> bool {
        self.battl_eye_date is Some ==> self.battl_eye
    }
}

/// A house or a guildhall.
#[derive(Clone, Copy, Debug, PartialEq, Eq, Structural)]
pub enum ResidenceType {
    House,
    Guildhall,
}

impl DeepView for ResidenceType {
    type V = ResidenceType;

    open spec fn deep_view(&self) -> ResidenceType {
        *self
    }
}

/// Where a residence stands in its rental or auction lifecycle.
#[derive(Clone, Copy, Debug, PartialEq, Eq, Structural)]
pub enum ResidenceStatus {
    Rented,
    AuctionNoBid,
    AuctionWithBid { bid: u32, expiry_time: UtcDateTime },
    AuctionFinished { bid: u32 },
}

/// A rentable property on a world.
#[derive(Debug, Clone, PartialEq)]
pub struct Residence {
    pub id: u32,
    pub town: String,
    pub residence_type: ResidenceType,
    pub name: String,
    pub size: u16,
    pub rent: u32,
    pub status: ResidenceStatus,
}

pub struct ResidenceView {
    pub id: u32,
    pub town: Seq<char>,
    pub residence_type: ResidenceType,
    pub name: Seq<char>,
    pub size: u16,
    pub rent: u32,
    pub status: ResidenceStatus,
}

impl View for Residence {
    type V = ResidenceView;

    open spec fn view(&self) -> ResidenceView {
        ResidenceView {
            id: self.id,
            town: self.town@,
            residence_type: self.residence_type,
            name: self.name@,
            size: self.size,
            rent: self.rent,
            status: self.status,
        }
    }
}

impl DeepView for Residence {
    type V = ResidenceView;

    open spec fn deep_view(&self) -> ResidenceView {
        self.view()
    }
}

/// A house a character owns.
#[derive(Debug, Clone, PartialEq)]
pub struct House {
    pub id: u32,
    pub name: String,
    pub paid_until: CalendarDate,
    pub town: String,
}

pub struct HouseView {
    pub id: u32,
    pub name: Seq<char>,
    pub paid_until: CalendarDate,
    pub town: Seq<char>,
}

impl View for House {
    type V = HouseView;

    open spec fn view(&self) -> HouseView {
        HouseView { id: self.id, name: self.name@, paid_until: self.paid_until, town: self.town@ }
    }
}

impl DeepView for House {
    type V = HouseView;

    open spec fn deep_view(&self) -> HouseView {
        self.view()
    }
}

/// A character's guild membership.
#[derive(Debug, Clone, PartialEq)]
pub struct GuildMember {
    pub role: String,
    pub guild_name: String,
}

pub struct GuildMemberView {
    pub role: Seq<char>,
    pub guild_name: Seq<char>,
}

impl View for GuildMember {
    type V = GuildMemberView;

    open spec fn view(&self) -> GuildMemberView {
        GuildMemberView { role: self.role@, guild_name: self.guild_name@ }
    }
}

/// A character sheet.
#[derive(Debug, Clone, PartialEq)]
pub struct CharacterInfo {
    pub name: String,
    pub former_names: Option<Vec<String>>,
    pub title: Option<String>,
    pub sex: Sex,
    pub vocation: Option<Vocation>,
    pub level: u16,
    pub achievement_points: u16,
    pub spawn_point: String,
    pub world: String,
    pub houses: Option<Vec<House>>,
    pub guild: Option<GuildMember>,
    pub last_login: Option<UtcDateTime>,
    pub comment: Option<String>,
    pub has_premium: bool,
}

pub struct CharacterInfoView {
    pub name: Seq<char>,
    pub former_names: Option<Seq<Seq<char>>>,
    pub title: Option<Seq<char>>,
    pub sex: Sex,
    pub vocation: Option<Vocation>,
    pub level: u16,
    pub achievement_points: u16,
    pub spawn_point: Seq<char>,
    pub world: Seq<char>,
    pub houses: Option<Seq<HouseView>>,
    pub guild: Option<GuildMemberView>,
    pub last_login: Option<UtcDateTime>,
    pub comment: Option<Seq<char>>,
    pub has_premium: bool,
}

impl View for CharacterInfo {
    type V = CharacterInfoView;

    open spec fn view(&self) -> CharacterInfoView {
        CharacterInfoView {
            name: self.name@,
            former_names: self.former_names.deep_view(),
            title: self.title.deep_view(),
            sex: self.sex,
            vocation: self.vocation,
            level: self.level,
            achievement_points: self.achievement_points,
            spawn_point: self.spawn_point@,
            world: self.world@,
            houses: match self.houses {
                Some(h) => Some(h.deep_view()),
                None => None,
            },
            guild: match self.guild {
                Some(g) => Some(g@),
                None => None,
            },
            last_login: self.last_login,
            comment: self.comment.deep_view(),
            has_premium: self.has_premium,
        }
    }
}

/// The filters a residence query can carry.
#[derive(Debug, Clone)]
pub struct QueryParams {
    pub town: Option<String>,
    pub residence_type: Option<ResidenceType>,
}

impl QueryParams {
    /// The requested town filter, if any.
    pub fn town(&self) -> (r: Option<String>)
        ensures
            r.deep_view() == self.town.deep_view(),
    {
        self.town.clone()
    }

    /// The requested residence-type filter, if any.
    pub fn residence_type(&self) -> (r: Option<ResidenceType>)
        ensures
            r == self.residence_type,
    {
        self.residence_type
    }
}

} // verus!
