//! Wire enumerations shared by every system.
use vstd::prelude::*;

verus! {

/// Bar timeframes.
#[derive(Debug, Clone, Copy, PartialEq, Eq, Hash, Structural)]
pub enum Timeframe {
    M1,
    M5,
    M15,
    M30,
    H1,
    H4,
    H6,
    H12,
    D1,
}

/// The wire name of a timeframe.
pub open spec fn timeframe_name(tf: Timeframe) -> Seq<char> {
    match tf {
        Timeframe::M1 => "1m"@,
        Timeframe::M5 => "5m"@,
        Timeframe::M15 => "15m"@,
        Timeframe::M30 => "30m"@,
        Timeframe::H1 => "1h"@,
        Timeframe::H4 => "4h"@,
        Timeframe::H6 => "6h"@,
        Timeframe::H12 => "12h"@,
        Timeframe::D1 => "1d"@,
    }
}

impl Timeframe {
    pub fn as_str(self) -> (r: &'static str)
        ensures
            r@ == timeframe_name(self),
    {
        match self {
            Timeframe::M1 => "1m",
            Timeframe::M5 => "5m",
            Timeframe::M15 => "15m",
            Timeframe::M30 => "30m",
            Timeframe::H1 => "1h",
            Timeframe::H4 => "4h",
            Timeframe::H6 => "6h",
            Timeframe::H12 => "12h",
            Timeframe::D1 => "1d",
        }
    }
}

/// HTTP body formats.
#[derive(Debug, Clone, Copy, PartialEq, Eq, Hash, Structural)]
pub enum HttpFormat {
    Json,
    Protobuf,
}

pub open spec fn http_format_name(f: HttpFormat) -> Seq<char> {
    match f {
        HttpFormat::Json => "json"@,
        HttpFormat::Protobuf => "protobuf"@,
    }
}

impl HttpFormat {
    pub fn as_str(self) -> (r: &'static str)
        ensures
            r@ == http_format_name(self),
    {
        match self {
            HttpFormat::Json => "json",
            HttpFormat::Protobuf => "protobuf",
        }
    }
}

/// How `latest` picks its snapshot.
#[derive(Debug, Clone, Copy, PartialEq, Eq, Hash, Structural)]
pub enum LatestMode {
    ExactWatermark,
    LatestAvailableLeWatermark,
}

pub open spec fn latest_mode_name(m: LatestMode) -> Seq<char> {
    match m {
        LatestMode::ExactWatermark => "exact_watermark"@,
        LatestMode::LatestAvailableLeWatermark => "latest_available_le_watermark"@,
    }
}

impl LatestMode {
    pub fn as_str(self) -> (r: &'static str)
        ensures
            r@ == latest_mode_name(self),
    {
        match self {
            LatestMode::ExactWatermark => "exact_watermark",
            LatestMode::LatestAvailableLeWatermark => "latest_available_le_watermark",
        }
    }
}

/// Grid alignment of `range`.
#[derive(Debug, Clone, Copy, PartialEq, Eq, Hash, Structural)]
pub enum AlignMode {
    Exact,
    Floor,
}

pub open spec fn align_mode_name(m: AlignMode) -> Seq<char> {
    match m {
        AlignMode::Exact => "exact"@,
        AlignMode::Floor => "floor"@,
    }
}

impl AlignMode {
    pub fn as_str(self) -> (r: &'static str)
        ensures
            r@ == align_mode_name(self),
    {
        match self {
            AlignMode::Exact => "exact",
            AlignMode::Floor => "floor",
        }
    }
}

/// Row shape of a bars response.
#[derive(Debug, Clone, Copy, PartialEq, Eq, Hash, Structural)]
pub enum BarsView {
    Min,
    Full,
}

pub open spec fn bars_view_name(v: BarsView) -> Seq<char> {
    match v {
        BarsView::Min => "min"@,
        BarsView::Full => "full"@,
    }
}

impl BarsView {
    pub fn as_str(self) -> (r: &'static str)
        ensures
            r@ == bars_view_name(self),
    {
        match self {
            BarsView::Min => "min",
            BarsView::Full => "full",
        }
    }
}

/// A decoded HTTP reply body: JSON or protobuf, as the request's format
/// asked for.
#[derive(Debug)]
pub enum HttpBody<J, P> {
    Json(J),
    Protobuf(P),
}

} // verus!
