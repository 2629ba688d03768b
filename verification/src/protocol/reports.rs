//! HID report structures and parsing

use crate::error::{Error, ErrorView, Result};
use vstd::prelude::*;
use vstd::string::*;

verus! {

/// HID report types
#[derive(Debug, Clone, Copy, PartialEq, Eq, Structural)]
pub enum ReportType {
    Input,
    Output,
    Feature,
}

/// HID report structure
#[derive(Debug)]
pub struct HidReport {
    pub report_id: u8,
    pub report_type: ReportType,
    pub data: Vec<u8>,
}

/// The bytes of a report on the wire: the report id, then the data.
pub open spec fn report_bytes(report_id: u8, data: Seq<u8>) -> Seq<u8> {
    seq![report_id] + data
}

impl Clone for HidReport {
    fn clone(&self) -> (r: Self)
        ensures
            r.report_id == self.report_id,
            r.report_type == self.report_type,
            r.data@ == self.data@,
    {
        let data = self.data.clone();
        assert(data@ =~= self.data@);
        HidReport { report_id: self.report_id, report_type: self.report_type, data }
    }
}

impl HidReport {
    /// Create a new HID report
    pub fn new(report_id: u8, report_type: ReportType, data: Vec<u8>) -> (r: Self)
        ensures
            r.report_id == report_id,
            r.report_type == report_type,
            r.data == data,
    {
        Self { report_id, report_type, data }
    }

    /// Create an input report
    pub fn input(report_id: u8, data: Vec<u8>) -> (r: Self)
        ensures
            r.report_id == report_id,
            r.report_type == ReportType::Input,
            r.data == data,
    {
        Self::new(report_id, ReportType::Input, data)
    }

    /// Create an output report
    pub fn output(report_id: u8, data: Vec<u8>) -> (r: Self)
        ensures
            r.report_id == report_id,
            r.report_type == ReportType::Output,
            r.data == data,
    {
        Self::new(report_id, ReportType::Output, data)
    }

    /// Create a feature report
    pub fn feature(report_id: u8, data: Vec<u8>) -> (r: Self)
        ensures
            r.report_id == report_id,
            r.report_type == ReportType::Feature,
            r.data == data,
    {
        Self::new(report_id, ReportType::Feature, data)
    }

    /// Convert report to bytes for transmission
    pub fn to_bytes(&self) -> (bytes: Vec<u8>)
        ensures
            bytes@ == report_bytes(self.report_id, self.data@),
    {
        let mut bytes: Vec<u8> = Vec::new();
        bytes.push(self.report_id);
        let n = self.data.len();
        let mut i: usize = 0;
        while i < n
            invariant
                i <= n,
                n == self.data@.len(),
                bytes@ == seq![self.report_id] + self.data@.take(i as int),
            decreases n - i,
        {
            bytes.push(self.data[i]);
            i = i + 1;
            assert(bytes@ =~= seq![self.report_id] + self.data@.take(i as int));
        }
        assert(self.data@.take(n as int) =~= self.data@);
        bytes
    }

    /// Parse a report from bytes: the first byte is the report id, the rest
    /// the data. No bytes at all are invalid data.
    pub fn from_bytes(bytes: &[u8], report_type: ReportType) -> (r: Result<Self>)
        ensures
            match r {
                Ok(report) => bytes@.len() > 0 && report.report_id == bytes@[0]
                    && report.report_type == report_type && report.data@ == bytes@.skip(1),
                Err(e) => bytes@.len() == 0 && e@ == ErrorView::InvalidData(
                    "Empty report data"@,
                ),
            },
    {
        let n = bytes.len();
        if n == 0 {
            return Err(Error::InvalidData(String::from_str("Empty report data")));
        }
        let mut data: Vec<u8> = Vec::new();
        let mut i: usize = 1;
        while i < n
            invariant
                1 <= i <= n,
                n == bytes@.len(),
                data@ == bytes@.subrange(1, i as int),
            decreases n - i,
        {
            data.push(bytes[i]);
            i = i + 1;
            assert(data@ =~= bytes@.subrange(1, i as int));
        }
        assert(bytes@.subrange(1, n as int) =~= bytes@.skip(1));
        Ok(Self { report_id: bytes[0], report_type, data })
    }
}

/// A report written to bytes and parsed again is the same report.
pub proof fn lemma_report_bytes_read_back(report_id: u8, data: Seq<u8>)
    ensures
        report_bytes(report_id, data).len() > 0,
        report_bytes(report_id, data)[0] == report_id,
        report_bytes(report_id, data).skip(1) == data,
{
    assert(report_bytes(report_id, data).skip(1) =~= data);
}

} // verus!
