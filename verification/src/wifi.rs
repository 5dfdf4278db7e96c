//! The WiFi scan cache and what the supplicant reports.

use vstd::prelude::*;
use crate::registry::view_all;
use crate::text::clone_opt_string;
use crate::types::{opt_view, AccessPointView, CRAccessPointInfo, CRWiFiMode, CRWiFiSecurity};

verus! {

/// How the supplicant says a network is secured.
#[derive(Clone, Copy, Debug, PartialEq, Eq, Structural)]
pub enum WpaSecurityType {
    /// Open network.
    Open,
    /// WEP.
    Wep,
    /// WPA with a pre-shared key.
    WpaPsk,
    /// WPA2 with a pre-shared key.
    Wpa2Psk,
    /// WPA3 with SAE.
    Wpa3Sae,
    /// WPA with 802.1X.
    WpaEap,
    /// WPA2 with 802.1X.
    Wpa2Eap,
}

impl WpaSecurityType {
    /// The security shown to clients for what the supplicant reports. Both
    /// 802.1X variants are shown as enterprise.
    pub open spec fn spec_shown_as(self) -> CRWiFiSecurity {
        match self {
            WpaSecurityType::Open => CRWiFiSecurity::Open,
            WpaSecurityType::Wep => CRWiFiSecurity::Wep,
            WpaSecurityType::WpaPsk => CRWiFiSecurity::Wpa,
            WpaSecurityType::Wpa2Psk => CRWiFiSecurity::Wpa2,
            WpaSecurityType::Wpa3Sae => CRWiFiSecurity::Wpa3,
            WpaSecurityType::WpaEap => CRWiFiSecurity::Enterprise,
            WpaSecurityType::Wpa2Eap => CRWiFiSecurity::Enterprise,
        }
    }

    /// The security shown to clients for what the supplicant reports.
    #[verifier::when_used_as_spec(spec_shown_as)]
    pub fn shown_as(self) -> (r: CRWiFiSecurity)
        ensures
            r == self.spec_shown_as(),
    {
        match self {
            WpaSecurityType::Open => CRWiFiSecurity::Open,
            WpaSecurityType::Wep => CRWiFiSecurity::Wep,
            WpaSecurityType::WpaPsk => CRWiFiSecurity::Wpa,
            WpaSecurityType::Wpa2Psk => CRWiFiSecurity::Wpa2,
            WpaSecurityType::Wpa3Sae => CRWiFiSecurity::Wpa3,
            WpaSecurityType::WpaEap | WpaSecurityType::Wpa2Eap => CRWiFiSecurity::Enterprise,
        }
    }
}

/// Where the supplicant stands with its association.
#[derive(Clone, Copy, Debug, PartialEq, Eq, Structural)]
pub enum WpaState {
    /// Not associated.
    Disconnected,
    /// Looking for networks.
    Scanning,
    /// Authenticating.
    Authenticating,
    /// Associating.
    Associating,
    /// Associated, keys not yet in place.
    Associated,
    /// Exchanging keys.
    Handshake,
    /// Associated and ready.
    Completed,
    /// Anything else.
    Unknown,
}

/// What the supplicant says about its current association.
#[derive(Debug)]
pub struct WpaStatus {
    /// Where the association stands.
    pub state: WpaState,
    /// The network it is associated with.
    pub ssid: Option<String>,
}

/// One network in the supplicant's scan results.
#[derive(Debug)]
pub struct WpaScanResult {
    /// Network name.
    pub ssid: String,
    /// Hardware address of the access point.
    pub bssid: String,
    /// Frequency in MHz.
    pub frequency: u32,
    /// Signal strength in percent.
    pub signal_percent: u8,
    /// How the network is secured.
    pub security_type: WpaSecurityType,
}

/// A `WpaScanResult` with its texts as character sequences.
pub struct ScanResultView {
    pub ssid: Seq<char>,
    pub bssid: Seq<char>,
    pub frequency: u32,
    pub signal_percent: u8,
    pub security_type: WpaSecurityType,
}

impl View for WpaScanResult {
    type V = ScanResultView;

    open spec fn view(&self) -> ScanResultView {
        ScanResultView {
            ssid: self.ssid@,
            bssid: self.bssid@,
            frequency: self.frequency,
            signal_percent: self.signal_percent,
            security_type: self.security_type,
        }
    }
}

/// The access point shown to clients for one scan result. Scan results are
/// always of networks in infrastructure mode.
pub open spec fn access_point_of(r: ScanResultView) -> AccessPointView {
    AccessPointView {
        ssid: r.ssid,
        bssid: r.bssid,
        strength: r.signal_percent,
        security: r.security_type.spec_shown_as(),
        frequency: r.frequency,
        mode: CRWiFiMode::Infrastructure,
    }
}

/// The access points shown to clients for a list of scan results: one for
/// each result, in the same order.
pub open spec fn access_points_of(results: Seq<ScanResultView>) -> Seq<AccessPointView> {
    results.map_values(|r: ScanResultView| access_point_of(r))
}

/// Translates scan results into the access points shown to clients.
pub fn translate_scan_results(results: &Vec<WpaScanResult>) -> (r: Vec<CRAccessPointInfo>)
    ensures
        view_all(r@) == access_points_of(view_all(results@)),
{
    let mut out: Vec<CRAccessPointInfo> = Vec::new();
    let mut i: usize = 0;
    while i < results.len()
        invariant
            i <= results.len(),
            out@.len() == i,
            forall|j: int| 0 <= j < i ==> out@[j]@ == access_point_of(results@[j]@),
        decreases results.len() - i,
    {
        let result = &results[i];
        out.push(
            CRAccessPointInfo {
                ssid: result.ssid.clone(),
                bssid: result.bssid.clone(),
                strength: result.signal_percent,
                security: result.security_type.shown_as(),
                frequency: result.frequency,
                mode: CRWiFiMode::Infrastructure,
            },
        );
        i += 1;
    }
    assert(view_all(out@) =~= access_points_of(view_all(results@)));
    out
}

/// The network the supplicant is associated with: the reported one when the
/// supplicant runs and its association is complete, none otherwise.
pub open spec fn associated_ssid(running: bool, state: Option<WpaState>, ssid: Option<Seq<char>>) -> Option<
    Seq<char>,
> {
    if running && state == Some(WpaState::Completed) {
        ssid
    } else {
        None
    }
}

/// The WiFi scan cache: the access points of the last finished scan, whether
/// a scan is under way, and the network WiFi is associated with.
pub struct CRWiFi {
    access_points: Vec<CRAccessPointInfo>,
    scanning: bool,
    current_ssid: Option<String>,
}

impl CRWiFi {
    /// The access points of the last finished scan.
    pub closed spec fn access_points(&self) -> Seq<AccessPointView> {
        view_all(self.access_points@)
    }

    /// Whether a scan is under way.
    pub closed spec fn scanning(&self) -> bool {
        self.scanning
    }

    /// The network WiFi is associated with.
    pub closed spec fn current_ssid(&self) -> Option<Seq<char>> {
        opt_view(self.current_ssid)
    }

    /// An empty cache: no access points, no scan, no network.
    pub fn new() -> (r: Self)
        ensures
            r.access_points() == Seq::<AccessPointView>::empty(),
            !r.scanning(),
            r.current_ssid() is None,
    {
        let r = CRWiFi { access_points: Vec::new(), scanning: false, current_ssid: None };
        assert(r.access_points() =~= Seq::<AccessPointView>::empty());
        r
    }

    /// Puts `aps` in place of the access points held so far.
    pub fn update_access_points(&mut self, aps: Vec<CRAccessPointInfo>)
        ensures
            final(self).access_points() == view_all(aps@),
            final(self).scanning() == old(self).scanning(),
            final(self).current_ssid() == old(self).current_ssid(),
    {
        self.access_points = aps;
    }

    /// Records whether a scan is under way.
    pub fn set_scanning(&mut self, scanning: bool)
        ensures
            final(self).scanning() == scanning,
            final(self).access_points() == old(self).access_points(),
            final(self).current_ssid() == old(self).current_ssid(),
    {
        self.scanning = scanning;
    }

    /// Records the network WiFi is associated with.
    pub fn set_current_ssid(&mut self, ssid: Option<String>)
        ensures
            final(self).current_ssid() == opt_view(ssid),
            final(self).access_points() == old(self).access_points(),
            final(self).scanning() == old(self).scanning(),
    {
        self.current_ssid = ssid;
    }

    /// A copy of the access points of the last finished scan.
    pub fn get_access_points(&self) -> (r: Vec<CRAccessPointInfo>)
        ensures
            view_all(r@) == self.access_points(),
    {
        let mut out: Vec<CRAccessPointInfo> = Vec::new();
        let mut i: usize = 0;
        while i < self.access_points.len()
            invariant
                i <= self.access_points.len(),
                out@.len() == i,
                forall|j: int| 0 <= j < i ==> out@[j]@ == self.access_points@[j]@,
            decreases self.access_points.len() - i,
        {
            out.push(self.access_points[i].clone());
            i += 1;
        }
        assert(view_all(out@) =~= self.access_points());
        out
    }

    /// Whether a scan is under way.
    pub fn is_scanning(&self) -> (r: bool)
        ensures
            r == self.scanning(),
    {
        self.scanning
    }

    /// The network WiFi is associated with.
    pub fn get_current_ssid(&self) -> (r: Option<String>)
        ensures
            opt_view(r) == self.current_ssid(),
    {
        clone_opt_string(&self.current_ssid)
    }
}

impl Default for CRWiFi {
    fn default() -> (r: Self)
        ensures
            r.access_points() == Seq::<AccessPointView>::empty(),
            !r.scanning(),
            r.current_ssid() is None,
    {
        Self::new()
    }
}

} // verus!
