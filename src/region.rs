use vstd::prelude::*;

verus! {

/// The regional editions of the game that can be found on disk.
#[derive(Clone, Copy, Debug, PartialEq, Eq, Structural)]
pub enum GameRegion {
    Us,
    Eu,
    Jp,
    Unknown,
}

/// The region that detection settles on, given which installation directories exist.
/// The North American edition is preferred, then the European one, then the Japanese one.
pub open spec fn detected(us: bool, eu: bool, jp: bool) -> GameRegion {
    if us {
        GameRegion::Us
    } else if eu {
        GameRegion::Eu
    } else if jp {
        GameRegion::Jp
    } else {
        GameRegion::Unknown
    }
}

/// Picks the installed region from the presence of each edition's directory.
pub fn detect_region(us_present: bool, eu_present: bool, jp_present: bool) -> (r: GameRegion)
    ensures
        r == detected(us_present, eu_present, jp_present),
{
    if us_present {
        GameRegion::Us
    } else if eu_present {
        GameRegion::Eu
    } else if jp_present {
        GameRegion::Jp
    } else {
        GameRegion::Unknown
    }
}

/// The title identifier under which an edition is installed; empty for an unknown region.
pub open spec fn title_of(region: GameRegion) -> Seq<char> {
    match region {
        GameRegion::Us => "NPUB30910"@,
        GameRegion::Eu => "NPEB01202"@,
        GameRegion::Jp => "NPJA00102"@,
        GameRegion::Unknown => Seq::empty(),
    }
}

/// The installation directory of an edition, relative to the working directory.
pub open spec fn game_dir_of(region: GameRegion) -> Seq<char> {
    "../"@ + title_of(region)
}

/// The directory whose files are decrypted: the edition's `USRDIR`.
pub open spec fn usrdir_of(region: GameRegion) -> Seq<char> {
    game_dir_of(region) + "/USRDIR"@
}

impl GameRegion {
    /// Whether this is one of the known editions.
    pub fn is_known(self) -> (r: bool)
        ensures
            r == (self != GameRegion::Unknown),
    {
        !matches!(self, GameRegion::Unknown)
    }

    /// The title identifier of a known edition.
    pub fn title_id(self) -> (r: Option<&'static str>)
        ensures
            self == GameRegion::Unknown <==> r is None,
            r matches Some(t) ==> t@ == title_of(self),
    {
        match self {
            GameRegion::Us => Some("NPUB30910"),
            GameRegion::Eu => Some("NPEB01202"),
            GameRegion::Jp => Some("NPJA00102"),
            GameRegion::Unknown => None,
        }
    }

    /// The installation directory of a known edition, such as `../NPUB30910`.
    pub fn game_dir(self) -> (r: Option<String>)
        ensures
            self == GameRegion::Unknown <==> r is None,
            r matches Some(d) ==> d@ == game_dir_of(self),
    {
        match self.title_id() {
            Some(title) => {
                let mut dir = String::from_str("../");
                dir.append(title);
                Some(dir)
            },
            None => None,
        }
    }

    /// The `USRDIR` directory of a known edition, such as `../NPUB30910/USRDIR`.
    pub fn usrdir(self) -> (r: Option<String>)
        ensures
            self == GameRegion::Unknown <==> r is None,
            r matches Some(d) ==> d@ == usrdir_of(self),
    {
        match self.game_dir() {
            Some(mut dir) => {
                dir.append("/USRDIR");
                Some(dir)
            },
            None => None,
        }
    }
}

} // verus!
