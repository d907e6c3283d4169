//! The daemon status message: its phase, the partitions that can be
//! cloned, and the installed compressors.

use vstd::prelude::*;
use vstd::string::*;
use crate::compression::Compression;
use crate::devices::{Device, Partition, SizeField, parts_of};
use crate::text::{clone_opt, opt_view};
use crate::outbound::{bool_text, push_bool};
use crate::partclone::{bounded_decimal, parse_decimal};
use crate::text::{chars_of, nat_text, push_decimal, starts_with, string_of, sub_chars};

verus! {

/// The document yaml-rust's emitter writes for a single string scalar.
pub uninterp spec fn yaml_string_doc(s: Seq<char>) -> Seq<char>;

/// Relies on yaml-rust's `YamlEmitter::dump` of a `Yaml::String`: the
/// document start line `---`, then the scalar, quoted and escaped where
/// plain text would read otherwise.
#[verifier::external_body]
fn emit_string_doc(s: &str) -> (r: String)
    ensures
        r@ == yaml_string_doc(s@),
        starts_with(r@, "---\n"@),
{
    let mut out = String::new();
    let _ = yaml_rust::YamlEmitter::new(&mut out).dump(&yaml_rust::Yaml::String(s.to_owned()));
    out
}

/// The text of a string value: the emitter's scalar, after the document
/// start line.
pub open spec fn scalar(s: Seq<char>) -> Seq<char> {
    yaml_string_doc(s).subrange(4, yaml_string_doc(s).len() as int)
}

/// Appends the text of a string value.
pub fn push_scalar(out: &mut String, s: &str)
    ensures
        final(out)@ == old(out)@ + scalar(s@),
{
    let doc = chars_of(emit_string_doc(s).as_str());
    proof {
        reveal_strlit("---\n");
    }
    let body = string_of(&sub_chars(&doc, 4, doc.len()));
    out.append(body.as_str());
}

/// A reported size, from a number or from a string of digits.
pub open spec fn size_value(f: SizeField) -> Option<nat> {
    match f {
        SizeField::Number(n) => Some(n as nat),
        SizeField::Text(s) => bounded_decimal(s@, u64::MAX as nat),
        SizeField::Other => None,
    }
}

/// Reads a reported size.
pub fn parse_size(f: &SizeField) -> (r: Option<u64>)
    ensures
        match size_value(*f) {
            Some(n) => r == Some(n as u64),
            None => r is None,
        },
{
    match f {
        SizeField::Number(n) => Some(*n),
        SizeField::Text(s) => parse_decimal(&chars_of(s.as_str()), u64::MAX),
        SizeField::Other => None,
    }
}

/// A partition as the status message lists it.
#[derive(Debug)]
pub struct PartSummary {
    pub name: String,
    pub size: u64,
    pub mounted: bool,
    pub fstype: Option<String>,
    pub label: Option<String>,
    pub uuid: Option<String>,
}

/// A device as the status message lists it.
#[derive(Debug)]
pub struct SourceSummary {
    pub name: String,
    pub size: u64,
    pub parts: Vec<PartSummary>,
}

/// A partition is listed when it has a name and a readable size.
pub open spec fn part_listed(p: Partition) -> bool {
    p.name is Some && size_value(p.size) is Some
}

/// A device is listed when it has a name, a readable size and partitions.
pub open spec fn device_listed(d: Device) -> bool {
    d.name is Some && size_value(d.size) is Some && parts_of(d).len() > 0
}

/// `s` lists partition `p`.
pub open spec fn part_summary_of(s: PartSummary, p: Partition) -> bool {
    &&& p.name matches Some(n) && s.name@ == n@
    &&& size_value(p.size) == Some(s.size as nat)
    &&& s.mounted == (p.mountpoint is Some)
    &&& opt_view(s.fstype) == opt_view(p.fstype)
    &&& opt_view(s.label) == opt_view(p.label)
    &&& opt_view(s.uuid) == opt_view(p.uuid)
}

/// `ss` lists, in order, the listed partitions among `ps`.
pub open spec fn parts_summarized(ss: Seq<PartSummary>, ps: Seq<Partition>) -> bool
    decreases ps.len(),
{
    if ps.len() == 0 {
        ss.len() == 0
    } else if part_listed(ps.last()) {
        ss.len() > 0 && part_summary_of(ss.last(), ps.last()) && parts_summarized(ss.drop_last(), ps.drop_last())
    } else {
        parts_summarized(ss, ps.drop_last())
    }
}

/// `s` lists device `d`.
pub open spec fn source_summary_of(s: SourceSummary, d: Device) -> bool {
    &&& d.name matches Some(n) && s.name@ == n@
    &&& size_value(d.size) == Some(s.size as nat)
    &&& parts_summarized(s.parts@, parts_of(d))
}

/// `ss` lists, in order, the listed devices among `ds`.
pub open spec fn sources_summarized(ss: Seq<SourceSummary>, ds: Seq<Device>) -> bool
    decreases ds.len(),
{
    if ds.len() == 0 {
        ss.len() == 0
    } else if device_listed(ds.last()) {
        ss.len() > 0 && source_summary_of(ss.last(), ds.last()) && sources_summarized(ss.drop_last(), ds.drop_last())
    } else {
        sources_summarized(ss, ds.drop_last())
    }
}

fn summarize_part(p: &Partition) -> (r: Option<PartSummary>)
    ensures
        part_listed(*p) ==> (r matches Some(s) && part_summary_of(s, *p)),
        !part_listed(*p) ==> r is None,
{
    let name = match &p.name {
        Some(n) => n.clone(),
        None => return None,
    };
    let size = match parse_size(&p.size) {
        Some(n) => n,
        None => return None,
    };
    Some(PartSummary {
        name,
        size,
        mounted: p.mountpoint.is_some(),
        fstype: clone_opt(&p.fstype),
        label: clone_opt(&p.label),
        uuid: clone_opt(&p.uuid),
    })
}

fn summarize_parts(ps: &Vec<Partition>) -> (r: Vec<PartSummary>)
    ensures
        parts_summarized(r@, ps@),
{
    let mut r: Vec<PartSummary> = Vec::new();
    let mut i: usize = 0;
    while i < ps.len()
        invariant
            i <= ps@.len(),
            parts_summarized(r@, ps@.subrange(0, i as int)),
        decreases ps.len() - i,
    {
        let ghost before = r@;
        assert(ps@.subrange(0, i + 1).drop_last() =~= ps@.subrange(0, i as int));
        assert(ps@.subrange(0, i + 1).last() == ps@[i as int]);
        match summarize_part(&ps[i]) {
            Some(s) => {
                r.push(s);
                assert(r@.drop_last() =~= before);
            },
            None => {},
        }
        i = i + 1;
    }
    assert(ps@.subrange(0, ps@.len() as int) =~= ps@);
    r
}

/// The listed devices among `devices`, with their listed partitions.
pub fn summarize_sources(devices: &Vec<Device>) -> (r: Vec<SourceSummary>)
    ensures
        sources_summarized(r@, devices@),
{
    let mut r: Vec<SourceSummary> = Vec::new();
    let mut i: usize = 0;
    while i < devices.len()
        invariant
            i <= devices@.len(),
            sources_summarized(r@, devices@.subrange(0, i as int)),
        decreases devices.len() - i,
    {
        let ghost before = r@;
        let ghost d = devices@[i as int];
        assert(devices@.subrange(0, i + 1).drop_last() =~= devices@.subrange(0, i as int));
        assert(devices@.subrange(0, i + 1).last() == d);
        let dev = &devices[i];
        match (&dev.name, parse_size(&dev.size), &dev.children) {
            (Some(name), Some(size), Some(children)) => {
                if children.len() > 0 {
                    let parts = summarize_parts(children);
                    r.push(SourceSummary { name: name.clone(), size, parts });
                    assert(r@.drop_last() =~= before);
                }
            },
            _ => {},
        }
        i = i + 1;
    }
    assert(devices@.subrange(0, devices@.len() as int) =~= devices@);
    r
}

/// An optional field of a listed partition.
pub open spec fn opt_field_text(key: Seq<char>, v: Option<String>) -> Seq<char> {
    match v {
        Some(s) => "\n        "@ + key + ": "@ + scalar(s@),
        None => Seq::empty(),
    }
}

/// The entry of a listed partition.
pub open spec fn part_text(p: PartSummary) -> Seq<char> {
    "\n      - name: "@ + scalar(p.name@) + "\n        size: "@ + nat_text(p.size as nat)
        + "\n        mounted: "@ + bool_text(p.mounted) + opt_field_text("fstype"@, p.fstype)
        + opt_field_text("label"@, p.label) + opt_field_text("uuid"@, p.uuid)
}

/// The entries of listed partitions.
pub open spec fn parts_text(ps: Seq<PartSummary>) -> Seq<char>
    decreases ps.len(),
{
    if ps.len() == 0 {
        Seq::empty()
    } else {
        parts_text(ps.drop_last()) + part_text(ps.last())
    }
}

/// The entry of a listed device.
pub open spec fn source_text(s: SourceSummary) -> Seq<char> {
    "\n  - name: "@ + scalar(s.name@) + "\n    size: "@ + nat_text(s.size as nat) + "\n    parts:"@
        + if s.parts@.len() == 0 {
        " []"@
    } else {
        parts_text(s.parts@)
    }
}

/// The entries of listed devices.
pub open spec fn sources_text(ss: Seq<SourceSummary>) -> Seq<char>
    decreases ss.len(),
{
    if ss.len() == 0 {
        Seq::empty()
    } else {
        sources_text(ss.drop_last()) + source_text(ss.last())
    }
}

/// The entries of compressor names.
pub open spec fn options_text(zs: Seq<Compression>) -> Seq<char>
    decreases zs.len(),
{
    if zs.len() == 0 {
        Seq::empty()
    } else {
        options_text(zs.drop_last()) + "\n  - "@ + scalar(zs.last().name@)
    }
}

/// The status message: its phase, the listed devices where a device list
/// is given, and the names of the installed compressors.
pub open spec fn status_text(status: Seq<char>, sources: Option<Seq<SourceSummary>>, installed: Seq<Compression>) -> Seq<char> {
    "---\ntype: status\nstatus: "@ + scalar(status) + match sources {
        None => Seq::empty(),
        Some(ss) => "\nsources:"@ + if ss.len() == 0 {
            " []"@
        } else {
            sources_text(ss)
        },
    } + "\ncompression_options:"@ + if installed.len() == 0 {
        " []"@
    } else {
        options_text(installed)
    }
}

fn push_opt_field(out: &mut String, key: &str, v: &Option<String>)
    ensures
        final(out)@ == old(out)@ + opt_field_text(key@, *v),
{
    match v {
        Some(s) => {
            out.append("\n        ");
            out.append(key);
            out.append(": ");
            push_scalar(out, s.as_str());
        },
        None => {},
    }
    assert(final(out)@ =~= old(out)@ + opt_field_text(key@, *v));
}

fn push_part(out: &mut String, p: &PartSummary)
    ensures
        final(out)@ == old(out)@ + part_text(*p),
{
    out.append("\n      - name: ");
    push_scalar(out, p.name.as_str());
    out.append("\n        size: ");
    push_decimal(out, p.size);
    out.append("\n        mounted: ");
    push_bool(out, p.mounted);
    push_opt_field(out, "fstype", &p.fstype);
    push_opt_field(out, "label", &p.label);
    push_opt_field(out, "uuid", &p.uuid);
    assert(final(out)@ =~= old(out)@ + part_text(*p));
}

fn push_source(out: &mut String, s: &SourceSummary)
    ensures
        final(out)@ == old(out)@ + source_text(*s),
{
    out.append("\n  - name: ");
    push_scalar(out, s.name.as_str());
    out.append("\n    size: ");
    push_decimal(out, s.size);
    out.append("\n    parts:");
    if s.parts.len() == 0 {
        out.append(" []");
    } else {
        let ghost mid = out@;
        let mut i: usize = 0;
        while i < s.parts.len()
            invariant
                i <= s.parts@.len(),
                out@ == mid + parts_text(s.parts@.subrange(0, i as int)),
            decreases s.parts.len() - i,
        {
            assert(s.parts@.subrange(0, i + 1).drop_last() =~= s.parts@.subrange(0, i as int));
            push_part(out, &s.parts[i]);
            i = i + 1;
            assert(out@ =~= mid + parts_text(s.parts@.subrange(0, i as int)));
        }
        assert(s.parts@.subrange(0, s.parts@.len() as int) =~= s.parts@);
    }
    assert(final(out)@ =~= old(out)@ + source_text(*s));
}

/// The status message for phase `status`: the listed devices among
/// `devices` where that list is not empty, and the names of the `installed`
/// compressors.
pub fn status_yaml(status: &str, devices: &Vec<Device>, installed: &Vec<Compression>) -> (r: String)
    ensures
        devices@.len() == 0 ==> r@ == status_text(status@, None, installed@),
        devices@.len() > 0 ==> exists|ss: Seq<SourceSummary>|
            sources_summarized(ss, devices@) && r@ == status_text(status@, Some(ss), installed@),
{
    let mut out = String::from_str("---\ntype: status\nstatus: ");
    push_scalar(&mut out, status);
    let ghost head = out@;
    let ghost mut listed: Option<Seq<SourceSummary>> = None;
    if devices.len() > 0 {
        let sources = summarize_sources(devices);
        out.append("\nsources:");
        if sources.len() == 0 {
            out.append(" []");
        } else {
            let ghost mid = out@;
            let mut i: usize = 0;
            while i < sources.len()
                invariant
                    i <= sources@.len(),
                    out@ == mid + sources_text(sources@.subrange(0, i as int)),
                decreases sources.len() - i,
            {
                assert(sources@.subrange(0, i + 1).drop_last() =~= sources@.subrange(0, i as int));
                push_source(&mut out, &sources[i]);
                i = i + 1;
                assert(out@ =~= mid + sources_text(sources@.subrange(0, i as int)));
            }
            assert(sources@.subrange(0, sources@.len() as int) =~= sources@);
        }
        proof {
            listed = Some(sources@);
        }
    }
    let ghost body = out@;
    out.append("\ncompression_options:");
    if installed.len() == 0 {
        out.append(" []");
    } else {
        let ghost mid = out@;
        let mut i: usize = 0;
        while i < installed.len()
            invariant
                i <= installed@.len(),
                out@ == mid + options_text(installed@.subrange(0, i as int)),
            decreases installed.len() - i,
        {
            assert(installed@.subrange(0, i + 1).drop_last() =~= installed@.subrange(0, i as int));
            out.append("\n  - ");
            push_scalar(&mut out, installed[i].name);
            i = i + 1;
            assert(out@ =~= mid + options_text(installed@.subrange(0, i as int)));
        }
        assert(installed@.subrange(0, installed@.len() as int) =~= installed@);
    }
    assert(out@ =~= status_text(status@, listed, installed@));
    out
}

} // verus!
