use vstd::prelude::*;

verus! {

/// Namespace tag that prefixes every device identity.
pub const DEVICE_NAMESPACE: &'static str = "N1";

/// The supported device families.
#[derive(Debug, Clone, Copy, PartialEq, Eq, Structural)]
pub enum Kind {
    HSV293S,
    HSV293SV3,
    HSV293SV3_1005,
    AKP153,
    AKP153E,
    AKP153EREV2,
    AKP153R,
    N1,
    MSDONE,
    GK150K,
    RMV01,
    SFSTC,
    TMICESC,
}

pub const AJAZZ_VID: u16 = 0x0300;
pub const MIRABOX_VID: u16 = 0x5548;
pub const MIRABOX_2_VID: u16 = 0x6603;
pub const MG_VID: u16 = 0x0b00;
pub const MADDOG_VID: u16 = 0x0c00;
pub const RISEMODE_VID: u16 = 0x0a00;
pub const SF_STC_VID: u16 = 0x1500;
pub const TMICE_VID: u16 = 0x0500;

pub const HSV293S_PID: u16 = 0x6670;
pub const HSV293SV3_PID: u16 = 0x1014;
pub const HSV293SV3_1005_PID: u16 = 0x1005;
pub const AKP153_PID: u16 = 0x6674;
pub const AKP153E_PID: u16 = 0x1010;
pub const AKP153E_REV2_PID: u16 = 0x3010;
pub const AKP153R_PID: u16 = 0x1020;
pub const N1_PID: u16 = 0x3007;
pub const MSD_ONE_PID: u16 = 0x1000;
pub const GK150K_PID: u16 = 0x1000;
pub const RMV01_PID: u16 = 0x1001;
pub const SF_STC_PID: u16 = 0x3003;
pub const TMICESC_PID: u16 = 0x1001;

/// HID usage page and usage id shared by every supported device.
pub const USAGE_PAGE: u16 = 65440;
pub const USAGE_ID: u16 = 1;

/// Family of a vendor / product id pair, if it is a supported one.
pub open spec fn kind_of(vid: u16, pid: u16) -> Option<Kind> {
    if vid == AJAZZ_VID {
        if pid == AKP153E_PID {
            Some(Kind::AKP153E)
        } else if pid == AKP153E_REV2_PID {
            Some(Kind::AKP153EREV2)
        } else if pid == AKP153R_PID {
            Some(Kind::AKP153R)
        } else if pid == N1_PID {
            Some(Kind::N1)
        } else {
            None
        }
    } else if vid == MIRABOX_VID {
        if pid == AKP153_PID {
            Some(Kind::AKP153)
        } else if pid == HSV293S_PID {
            Some(Kind::HSV293S)
        } else {
            None
        }
    } else if vid == MIRABOX_2_VID {
        if pid == HSV293SV3_PID {
            Some(Kind::HSV293SV3)
        } else if pid == HSV293SV3_1005_PID {
            Some(Kind::HSV293SV3_1005)
        } else {
            None
        }
    } else if vid == MG_VID && pid == MSD_ONE_PID {
        Some(Kind::MSDONE)
    } else if vid == MADDOG_VID && pid == GK150K_PID {
        Some(Kind::GK150K)
    } else if vid == RISEMODE_VID && pid == RMV01_PID {
        Some(Kind::RMV01)
    } else if vid == SF_STC_VID && pid == SF_STC_PID {
        Some(Kind::SFSTC)
    } else if vid == TMICE_VID && pid == TMICESC_PID {
        Some(Kind::TMICESC)
    } else {
        None
    }
}

/// One device query: usage page, usage id, vendor id and product id.
#[derive(Debug, Clone, Copy, PartialEq, Eq, Structural)]
pub struct QueryKey {
    pub usage_page: u16,
    pub usage_id: u16,
    pub vendor_id: u16,
    pub product_id: u16,
}

/// The vendor / product pair of each supported family, in query order.
pub open spec fn spec_query_ids() -> Seq<(u16, u16)> {
    seq![
        (MIRABOX_VID, HSV293S_PID),
        (MIRABOX_2_VID, HSV293SV3_PID),
        (MIRABOX_2_VID, HSV293SV3_1005_PID),
        (MIRABOX_VID, AKP153_PID),
        (AJAZZ_VID, AKP153E_PID),
        (AJAZZ_VID, AKP153E_REV2_PID),
        (AJAZZ_VID, AKP153R_PID),
        (AJAZZ_VID, N1_PID),
        (MG_VID, MSD_ONE_PID),
        (MADDOG_VID, GK150K_PID),
        (RISEMODE_VID, RMV01_PID),
        (SF_STC_VID, SF_STC_PID),
        (TMICE_VID, TMICESC_PID),
    ]
}

fn query(vendor_id: u16, product_id: u16) -> (r: QueryKey)
    ensures
        r == (QueryKey { usage_page: USAGE_PAGE, usage_id: USAGE_ID, vendor_id, product_id }),
{
    QueryKey { usage_page: USAGE_PAGE, usage_id: USAGE_ID, vendor_id, product_id }
}

/// The queries that discovery and hot-plug watching match devices against.
pub fn queries() -> (r: Vec<QueryKey>)
    ensures
        r@.len() == spec_query_ids().len(),
        forall|i: int|
            0 <= i < r@.len() ==> (#[trigger] r@[i]).usage_page == USAGE_PAGE && r@[i].usage_id
                == USAGE_ID && (r@[i].vendor_id, r@[i].product_id) == spec_query_ids()[i],
        forall|i: int|
            0 <= i < r@.len() ==> kind_of(#[trigger] r@[i].vendor_id, r@[i].product_id).is_some(),
{
    let r = vec![
        query(MIRABOX_VID, HSV293S_PID),
        query(MIRABOX_2_VID, HSV293SV3_PID),
        query(MIRABOX_2_VID, HSV293SV3_1005_PID),
        query(MIRABOX_VID, AKP153_PID),
        query(AJAZZ_VID, AKP153E_PID),
        query(AJAZZ_VID, AKP153E_REV2_PID),
        query(AJAZZ_VID, AKP153R_PID),
        query(AJAZZ_VID, N1_PID),
        query(MG_VID, MSD_ONE_PID),
        query(MADDOG_VID, GK150K_PID),
        query(RISEMODE_VID, RMV01_PID),
        query(SF_STC_VID, SF_STC_PID),
        query(TMICE_VID, TMICESC_PID),
    ];
    r
}

impl Kind {
    pub open spec fn spec_protocol_version(self) -> usize {
        match self {
            Kind::HSV293SV3 | Kind::HSV293SV3_1005 | Kind::AKP153EREV2 | Kind::SFSTC | Kind::N1 => 3,
            _ => 1,
        }
    }

    pub open spec fn spec_layout(self) -> (usize, usize) {
        match self {
            Kind::N1 => (6, 3),
            _ => (3, 6),
        }
    }

    pub open spec fn spec_key_count(self) -> usize {
        (self.spec_layout().0 * self.spec_layout().1) as usize
    }

    pub open spec fn spec_encoder_count(self) -> usize {
        match self {
            Kind::N1 => 3,
            _ => 0,
        }
    }

    /// Whether the family must be switched to software-controlled reporting
    /// before it emits input events.
    pub open spec fn spec_needs_mode_handshake(self) -> bool {
        self == Kind::N1
    }

    pub open spec fn spec_human_name(self) -> Seq<char> {
        match self {
            Kind::HSV293S => "Mirabox HSV293S"@,
            Kind::HSV293SV3 => "Mirabox HSV293SV3"@,
            Kind::HSV293SV3_1005 => "Mirabox HSV293SV3"@,
            Kind::AKP153 => "Ajazz AKP153"@,
            Kind::AKP153E => "Ajazz AKP153E"@,
            Kind::AKP153EREV2 => "Ajazz AKP153E (rev. 2)"@,
            Kind::AKP153R => "Ajazz AKP153R"@,
            Kind::N1 => "Ajazz N1"@,
            Kind::MSDONE => "Mars Gaming MSD-ONE"@,
            Kind::GK150K => "Mad Dog GK150K"@,
            Kind::RMV01 => "Risemode Vision 01"@,
            Kind::SFSTC => "Soomfon Stream Controller"@,
            Kind::TMICESC => "TMICE Stream Controller"@,
        }
    }

    /// Identity suffix of a family whose units all report one shared serial.
    pub open spec fn spec_id_suffix(self) -> Seq<char> {
        match self {
            Kind::AKP153 => "153"@,
            Kind::AKP153E => "153E"@,
            Kind::AKP153R => "153R"@,
            Kind::HSV293S => "293S"@,
            Kind::N1 => "N1"@,
            Kind::MSDONE => "MSDONE"@,
            Kind::GK150K => "GK150K"@,
            Kind::RMV01 => "RMV01"@,
            Kind::TMICESC => "TMICESC"@,
            _ => Seq::empty(),
        }
    }

    /// Matches a vendor / product id pair to its device family.
    pub fn from_vid_pid(vid: u16, pid: u16) -> (r: Option<Kind>)
        ensures
            r == kind_of(vid, pid),
    {
        match vid {
            AJAZZ_VID => match pid {
                AKP153E_PID => Some(Kind::AKP153E),
                AKP153E_REV2_PID => Some(Kind::AKP153EREV2),
                AKP153R_PID => Some(Kind::AKP153R),
                N1_PID => Some(Kind::N1),
                _ => None,
            },
            MIRABOX_VID => match pid {
                AKP153_PID => Some(Kind::AKP153),
                HSV293S_PID => Some(Kind::HSV293S),
                _ => None,
            },
            MIRABOX_2_VID => match pid {
                HSV293SV3_PID => Some(Kind::HSV293SV3),
                HSV293SV3_1005_PID => Some(Kind::HSV293SV3_1005),
                _ => None,
            },
            MG_VID => match pid {
                MSD_ONE_PID => Some(Kind::MSDONE),
                _ => None,
            },
            MADDOG_VID => match pid {
                GK150K_PID => Some(Kind::GK150K),
                _ => None,
            },
            RISEMODE_VID => match pid {
                RMV01_PID => Some(Kind::RMV01),
                _ => None,
            },
            SF_STC_VID => match pid {
                SF_STC_PID => Some(Kind::SFSTC),
                _ => None,
            },
            TMICE_VID => match pid {
                TMICESC_PID => Some(Kind::TMICESC),
                _ => None,
            },
            _ => None,
        }
    }

    /// Protocol version spoken by the family.
    pub fn protocol_version(&self) -> (r: usize)
        ensures
            r == self.spec_protocol_version(),
            r == 1 || r == 3,
    {
        match self {
            Kind::HSV293SV3 => 3,
            Kind::HSV293SV3_1005 => 3,
            Kind::AKP153EREV2 => 3,
            Kind::SFSTC => 3,
            Kind::N1 => 3,
            _ => 1,
        }
    }

    /// Logical grid shape as (rows, cols).
    pub fn layout(&self) -> (r: (usize, usize))
        ensures
            r == self.spec_layout(),
    {
        match self {
            Kind::N1 => (6, 3),
            _ => (3, 6),
        }
    }

    /// Number of display keys.
    pub fn key_count(&self) -> (r: usize)
        ensures
            r == self.spec_key_count(),
            r == 18,
    {
        let (rows, cols) = self.layout();
        rows * cols
    }

    /// Number of encoders (dial and face buttons) exposed to the host.
    pub fn encoder_count(&self) -> (r: usize)
        ensures
            r == self.spec_encoder_count(),
    {
        match self {
            Kind::N1 => 3,
            _ => 0,
        }
    }

    /// Whether a software-control mode frame must be sent after connecting.
    pub fn needs_mode_handshake(&self) -> (r: bool)
        ensures
            r == self.spec_needs_mode_handshake(),
    {
        match self {
            Kind::N1 => true,
            _ => false,
        }
    }

    /// Display name of the family, independent of what the USB stack reports.
    pub fn human_name(&self) -> (r: String)
        ensures
            r@ == self.spec_human_name(),
    {
        let s = match self {
            Kind::HSV293S => "Mirabox HSV293S",
            Kind::HSV293SV3 => "Mirabox HSV293SV3",
            Kind::HSV293SV3_1005 => "Mirabox HSV293SV3",
            Kind::AKP153 => "Ajazz AKP153",
            Kind::AKP153E => "Ajazz AKP153E",
            Kind::AKP153EREV2 => "Ajazz AKP153E (rev. 2)",
            Kind::AKP153R => "Ajazz AKP153R",
            Kind::N1 => "Ajazz N1",
            Kind::MSDONE => "Mars Gaming MSD-ONE",
            Kind::GK150K => "Mad Dog GK150K",
            Kind::RMV01 => "Risemode Vision 01",
            Kind::SFSTC => "Soomfon Stream Controller",
            Kind::TMICESC => "TMICE Stream Controller",
        };
        String::from_str(s)
    }

    /// Suffix that tells apart families sharing one hard-coded serial number.
    /// Only those families (protocol version 1) and the N1 have one.
    pub fn id_suffix(&self) -> (r: String)
        requires
            self.spec_protocol_version() == 1 || *self == Kind::N1,
        ensures
            r@ == self.spec_id_suffix(),
            r@.len() > 0,
    {
        proof {
            reveal_strlit("153");
            reveal_strlit("153E");
            reveal_strlit("153R");
            reveal_strlit("293S");
            reveal_strlit("N1");
            reveal_strlit("MSDONE");
            reveal_strlit("GK150K");
            reveal_strlit("RMV01");
            reveal_strlit("TMICESC");
        }
        let s = match self {
            Kind::AKP153 => "153",
            Kind::AKP153E => "153E",
            Kind::AKP153R => "153R",
            Kind::HSV293S => "293S",
            Kind::MSDONE => "MSDONE",
            Kind::GK150K => "GK150K",
            Kind::N1 => "N1",
            Kind::RMV01 => "RMV01",
            Kind::TMICESC => "TMICESC",
            _ => {
                proof {
                    assert(false);
                }
                ""
            },
        };
        String::from_str(s)
    }
}

} // verus!
