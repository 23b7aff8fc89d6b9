use vstd::prelude::*;
use vstd::string::StringExecFns;

verus! {

/// The bucket this watcher reports to on a host with the given name, or on
/// one whose name cannot be read as text.
pub open spec fn bucket_name_of(host: Option<Seq<char>>) -> Seq<char> {
    "aw-watcher-nvim_"@ + match host {
        Some(h) => h,
        None => "unknown"@,
    }
}

/// The name of the bucket for this host; `host` is `None` where the host
/// name is not valid text.
pub fn bucket_name(host: Option<&str>) -> (r: String)
    ensures
        r@ == bucket_name_of(
            match host {
                Some(h) => Some(h@),
                None => None,
            },
        ),
{
    let head = String::from_str("aw-watcher-nvim_");
    match host {
        Some(h) => head.concat(h),
        None => head.concat("unknown"),
    }
}

/// The kind of bucket the heartbeats go to.
pub fn bucket_type() -> (r: String)
    ensures
        r@ == "app.editor.activity"@,
{
    String::from_str("app.editor.activity")
}

} // verus!
