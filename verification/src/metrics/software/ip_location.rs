//! Where the host's public address lies, as a geolocation service tells.
//!
//! Latitude and longitude are carried as the bits of 64-bit floats: nothing
//! here computes with them.

use vstd::prelude::*;
use vstd::string::StringExecFns;
use crate::metrics::owner::{owners_after_pass, MetricRecord};
use crate::metrics::text::text_of;
use crate::parse::{
    is_json,
    json_number_member,
    json_text_member,
    number_member,
    parses_as_json,
    text_member,
    trimmed,
    trimmed_text,
};

verus! {

/// The place of one owner's host.
#[derive(Clone, Debug, PartialEq, Eq)]
pub struct IpLocation {
    pub sub_admin_metrics_id: Option<i32>,
    pub staff_metrics_id: Option<i32>,
    pub ip: Option<String>,
    pub city: Option<String>,
    pub region: Option<String>,
    pub country: Option<String>,
    pub latitude: Option<u64>,
    pub longitude: Option<u64>,
    pub isp: Option<String>,
}

/// What the geolocation service told of an address.
#[derive(Clone, Debug, PartialEq, Eq)]
pub struct IpSample {
    pub ip: Option<String>,
    pub city: Option<String>,
    pub region: Option<String>,
    pub country: Option<String>,
    pub latitude: Option<u64>,
    pub longitude: Option<u64>,
    pub isp: Option<String>,
}

/// An `IpSample` with its texts as sequences of characters.
pub struct IpSampleView {
    pub ip: Option<Seq<char>>,
    pub city: Option<Seq<char>>,
    pub region: Option<Seq<char>>,
    pub country: Option<Seq<char>>,
    pub latitude: Option<u64>,
    pub longitude: Option<u64>,
    pub isp: Option<Seq<char>>,
}

impl View for IpSample {
    type V = IpSampleView;

    open spec fn view(&self) -> IpSampleView {
        IpSampleView {
            ip: text_of(self.ip),
            city: text_of(self.city),
            region: text_of(self.region),
            country: text_of(self.country),
            latitude: self.latitude,
            longitude: self.longitude,
            isp: text_of(self.isp),
        }
    }
}

impl MetricRecord for IpLocation {
    open spec fn sub_admin_owner(&self) -> Option<i32> {
        self.sub_admin_metrics_id
    }

    open spec fn staff_owner(&self) -> Option<i32> {
        self.staff_metrics_id
    }

    fn owners(&self) -> (pair: (Option<i32>, Option<i32>)) {
        (self.sub_admin_metrics_id, self.staff_metrics_id)
    }
}

/// The sample that stands for a lookup that failed: nothing is known.
pub open spec fn unknown_place() -> IpSample {
    IpSample {
        ip: None,
        city: None,
        region: None,
        country: None,
        latitude: None,
        longitude: None,
        isp: None,
    }
}

/// A record with the given owners and the readings of `sample`.
pub open spec fn located(
    sub_admin_metrics_id: Option<i32>,
    staff_metrics_id: Option<i32>,
    sample: IpSample,
) -> IpLocation {
    IpLocation {
        sub_admin_metrics_id,
        staff_metrics_id,
        ip: sample.ip,
        city: sample.city,
        region: sample.region,
        country: sample.country,
        latitude: sample.latitude,
        longitude: sample.longitude,
        isp: sample.isp,
    }
}

/// The record that a pass leaves for `user_id` after a lookup that gave
/// `fetched`, or failed.
pub open spec fn reconciled_ip_location(
    stored: Option<IpLocation>,
    user_id: i32,
    fetched: Option<IpSample>,
) -> IpLocation {
    let owners = owners_after_pass(stored, user_id);
    located(
        owners.0,
        owners.1,
        match fetched {
            Some(sample) => sample,
            None => unknown_place(),
        },
    )
}

/// The address to ask the geolocation service about: the answer of the
/// address service without the white space around it.
pub open spec fn announced_address(answer: Seq<char>) -> Seq<char> {
    trimmed_text(answer)
}

/// Where the geolocation service is asked about `ip`.
pub open spec fn lookup_url(ip: Seq<char>) -> Seq<char> {
    "http://ip-api.com/json/"@ + ip
}

/// What the geolocation service's answer `body` tells of `ip`; `None` where
/// the answer is no JSON.
pub open spec fn place_in_answer(ip: Seq<char>, body: Seq<char>) -> Option<IpSampleView> {
    if is_json(body) {
        Some(
            IpSampleView {
                ip: Some(ip),
                city: json_text_member(body, "city"@),
                region: json_text_member(body, "regionName"@),
                country: json_text_member(body, "country"@),
                latitude: json_number_member(body, "lat"@),
                longitude: json_number_member(body, "lon"@),
                isp: json_text_member(body, "isp"@),
            },
        )
    } else {
        None
    }
}

impl IpLocation {
    /// A record with the given owners and readings.
    pub fn new(
        sub_admin_metrics_id: Option<i32>,
        staff_metrics_id: Option<i32>,
        ip: Option<String>,
        city: Option<String>,
        region: Option<String>,
        country: Option<String>,
        latitude: Option<u64>,
        longitude: Option<u64>,
        isp: Option<String>,
    ) -> (location: Self)
        ensures
            location == (IpLocation {
                sub_admin_metrics_id,
                staff_metrics_id,
                ip,
                city,
                region,
                country,
                latitude,
                longitude,
                isp,
            }),
    {
        Self {
            sub_admin_metrics_id,
            staff_metrics_id,
            ip,
            city,
            region,
            country,
            latitude,
            longitude,
            isp,
        }
    }

    /// Overwrites the seven readings and leaves the owners alone.
    pub fn update(
        &mut self,
        new_ip: Option<String>,
        new_city: Option<String>,
        new_region: Option<String>,
        new_country: Option<String>,
        new_latitude: Option<u64>,
        new_longitude: Option<u64>,
        new_isp: Option<String>,
    )
        ensures
            *final(self) == (IpLocation {
                ip: new_ip,
                city: new_city,
                region: new_region,
                country: new_country,
                latitude: new_latitude,
                longitude: new_longitude,
                isp: new_isp,
                ..*old(self)
            }),
    {
        self.ip = new_ip;
        self.city = new_city;
        self.region = new_region;
        self.country = new_country;
        self.latitude = new_latitude;
        self.longitude = new_longitude;
        self.isp = new_isp;
    }
}

/// The host's public address, from the answer of the address service.
pub fn announced_ip(answer: &str) -> (ip: String)
    ensures
        ip@ == announced_address(answer@),
{
    trimmed(answer)
}

/// Where to ask the geolocation service about `ip`.
pub fn location_url(ip: &str) -> (url: String)
    ensures
        url@ == lookup_url(ip@),
{
    let mut url = String::from_str("http://ip-api.com/json/");
    url.append(ip);
    url
}

/// Reads the geolocation service's answer for `ip`. An answer that is no
/// JSON gives nothing; in one that is, every member that is missing or of
/// the wrong kind is left out.
pub fn fetch_ip_location(ip: String, body: &str) -> (sample: Option<IpSample>)
    ensures
        match sample {
            Some(place) => place_in_answer(ip@, body@) == Some(place@),
            None => place_in_answer(ip@, body@).is_none(),
        },
{
    if !parses_as_json(body) {
        return None;
    }
    Some(
        IpSample {
            ip: Some(ip),
            city: text_member(body, "city"),
            region: text_member(body, "regionName"),
            country: text_member(body, "country"),
            latitude: number_member(body, "lat"),
            longitude: number_member(body, "lon"),
            isp: text_member(body, "isp"),
        },
    )
}

/// A new record for the given owners from the outcome of a lookup; where
/// the lookup failed, every reading is absent.
pub fn gather_ip_location(
    sub_admin_metrics_id: Option<i32>,
    staff_metrics_id: Option<i32>,
    fetched: Option<IpSample>,
) -> (location: IpLocation)
    ensures
        location == located(
            sub_admin_metrics_id,
            staff_metrics_id,
            match fetched {
                Some(sample) => sample,
                None => unknown_place(),
            },
        ),
{
    match fetched {
        Some(sample) => IpLocation::new(
            sub_admin_metrics_id,
            staff_metrics_id,
            sample.ip,
            sample.city,
            sample.region,
            sample.country,
            sample.latitude,
            sample.longitude,
            sample.isp,
        ),
        None => IpLocation::new(
            sub_admin_metrics_id,
            staff_metrics_id,
            None,
            None,
            None,
            None,
            None,
            None,
            None,
        ),
    }
}

/// One pass for `user_id` over the outcome of a lookup: refreshes the
/// stored record, or creates one where none was stored. The caller persists
/// what comes back.
pub fn get_ip_location_info_handler(
    stored: Option<IpLocation>,
    user_id: i32,
    fetched: Option<IpSample>,
) -> (location: IpLocation)
    ensures
        location == reconciled_ip_location(stored, user_id, fetched),
{
    match stored {
        Some(mut record) => {
            match fetched {
                Some(sample) => record.update(
                    sample.ip,
                    sample.city,
                    sample.region,
                    sample.country,
                    sample.latitude,
                    sample.longitude,
                    sample.isp,
                ),
                None => record.update(None, None, None, None, None, None, None),
            }
            record
        },
        None => gather_ip_location(Some(user_id), None, fetched),
    }
}

} // verus!
