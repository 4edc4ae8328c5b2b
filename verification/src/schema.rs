//! The response record returned by the time-lookup service.

use vstd::prelude::*;

verus! {

/// A date-time response from the remote service.
///
/// The remote JSON body is a flat object; its timestamp-valued fields
/// (`dst_from`, `dst_until`, `utc_datetime`) are held here as unix seconds,
/// with `None` standing for a null transition timestamp.  The record is
/// immutable once constructed: every accessor is a pure field projection.
#[derive(Debug)]
pub struct DateTimeJson {
    pub abbreviation: String,
    pub client_ip: String,
    pub datetime: String,
    pub day_of_week: i64,
    pub day_of_year: i64,
    pub dst: bool,
    pub dst_from: Option<i64>,
    pub dst_offset: i64,
    pub dst_until: Option<i64>,
    pub raw_offset: i64,
    pub timezone: String,
    pub unixtime: i64,
    pub utc_datetime: i64,
    pub utc_offset: String,
    pub week_number: i64,
}

impl DateTimeJson {
    /// The field names of the remote JSON object, in schema order.
    pub fn key_list() -> (r: Vec<&'static str>)
        ensures
            r@.len() == 15,
            r@[0]@ == "abbreviation"@,
            r@[1]@ == "client_ip"@,
            r@[2]@ == "datetime"@,
            r@[3]@ == "day_of_week"@,
            r@[4]@ == "day_of_year"@,
            r@[5]@ == "dst"@,
            r@[6]@ == "dst_from"@,
            r@[7]@ == "dst_offset"@,
            r@[8]@ == "dst_until"@,
            r@[9]@ == "raw_offset"@,
            r@[10]@ == "timezone"@,
            r@[11]@ == "unixtime"@,
            r@[12]@ == "utc_datetime"@,
            r@[13]@ == "utc_offset"@,
            r@[14]@ == "week_number"@,
    {
        let mut v: Vec<&'static str> = Vec::new();
        v.push("abbreviation");
        v.push("client_ip");
        v.push("datetime");
        v.push("day_of_week");
        v.push("day_of_year");
        v.push("dst");
        v.push("dst_from");
        v.push("dst_offset");
        v.push("dst_until");
        v.push("raw_offset");
        v.push("timezone");
        v.push("unixtime");
        v.push("utc_datetime");
        v.push("utc_offset");
        v.push("week_number");
        v
    }

    /// The abbreviation of the timezone.
    pub fn abbreviation(&self) -> (r: &str)
        ensures
            r@ == self.abbreviation@,
    {
        self.abbreviation.as_str()
    }

    /// The IP address the remote service resolved for the caller.
    pub fn client_ip(&self) -> (r: &str)
        ensures
            r@ == self.client_ip@,
    {
        self.client_ip.as_str()
    }

    /// The local date-time text, ISO-8601 with offset.
    pub fn datetime(&self) -> (r: &str)
        ensures
            r@ == self.datetime@,
    {
        self.datetime.as_str()
    }

    /// The day of the week.
    pub fn day_of_week(&self) -> (r: i64)
        ensures
            r == self.day_of_week,
    {
        self.day_of_week
    }

    /// The day of the year.
    pub fn day_of_year(&self) -> (r: i64)
        ensures
            r == self.day_of_year,
    {
        self.day_of_year
    }

    /// Whether daylight saving time is in effect.
    pub fn dst(&self) -> (r: bool)
        ensures
            r == self.dst,
    {
        self.dst
    }

    /// The unix time the current daylight-saving period started, if any.
    pub fn dst_from(&self) -> (r: Option<i64>)
        ensures
            r == self.dst_from,
    {
        self.dst_from
    }

    /// The daylight-saving offset in seconds.
    pub fn dst_offset(&self) -> (r: i64)
        ensures
            r == self.dst_offset,
    {
        self.dst_offset
    }

    /// The unix time the current daylight-saving period ends, if any.
    pub fn dst_until(&self) -> (r: Option<i64>)
        ensures
            r == self.dst_until,
    {
        self.dst_until
    }

    /// The raw UTC offset in seconds.
    pub fn raw_offset(&self) -> (r: i64)
        ensures
            r == self.raw_offset,
    {
        self.raw_offset
    }

    /// The timezone name.
    pub fn timezone(&self) -> (r: &str)
        ensures
            r@ == self.timezone@,
    {
        self.timezone.as_str()
    }

    /// The unix time of the response.
    pub fn unixtime(&self) -> (r: i64)
        ensures
            r == self.unixtime,
    {
        self.unixtime
    }

    /// The UTC date-time, as unix seconds.
    pub fn utc_datetime(&self) -> (r: i64)
        ensures
            r == self.utc_datetime,
    {
        self.utc_datetime
    }

    /// The UTC offset as text, `±HH:MM`.
    pub fn utc_offset(&self) -> (r: &str)
        ensures
            r@ == self.utc_offset@,
    {
        self.utc_offset.as_str()
    }

    /// The ISO week number.
    pub fn week_number(&self) -> (r: i64)
        ensures
            r == self.week_number,
    {
        self.week_number
    }
}

} // verus!
