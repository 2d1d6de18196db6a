use vstd::prelude::*;
use vstd::string::StringExecFns;
use crate::decimal::spec_dec_int;
use crate::decimal::i64_to_dec_string;

verus! {

/// Run configuration, read once from the command line and never mutated.
pub struct Args {
    /// The name of the log group.
    pub log_group_name: String,
    /// The base name of the log stream.
    pub log_stream_name: String,
    /// Append `-<unix seconds>` to the stream name.
    pub suffix_stream_name_with_timestamp: bool,
    /// Delete and recreate the log stream when one with the chosen name exists.
    pub remake_log_stream: bool,
    /// Pin the client to this region instead of the ambient default.
    pub region: Option<String>,
    /// Override the service endpoint.
    pub endpoint_url: Option<String>,
    /// Echo every forwarded input line to standard output.
    pub pass_through: bool,
}

/// The stream name used for every remote call: the base name, or the base
/// name with `-<seconds>` appended when the suffix flag is set.
pub open spec fn spec_effective_stream_name(base: Seq<char>, suffix: bool, now_seconds: int) -> Seq<char> {
    if suffix {
        base + seq!['-'] + spec_dec_int(now_seconds)
    } else {
        base
    }
}

/// Relies on chrono's `Utc::now` for the wall clock; the result is whatever
/// the clock reads, in whole seconds since the Unix epoch.
#[verifier::external_body]
fn now_unix_seconds() -> i64 {
    chrono::Utc::now().timestamp()
}

/// The stream name for a run whose clock read `now_seconds` at startup.
pub fn effective_stream_name(base: &str, suffix: bool, now_seconds: i64) -> (r: String)
    ensures
        r@ == spec_effective_stream_name(base@, suffix, now_seconds as int),
{
    if suffix {
        let mut s = base.to_owned();
        s.append("-");
        let ts = i64_to_dec_string(now_seconds);
        s.append(ts.as_str());
        proof {
            reveal_strlit("-");
            assert("-"@ =~= seq!['-']);
            assert(s@ =~= spec_effective_stream_name(base@, suffix, now_seconds as int));
        }
        s
    } else {
        base.to_owned()
    }
}

impl Args {
    /// The effective stream name for this run, computed once at startup: the
    /// base name as given, or suffixed with the clock's seconds-since-epoch
    /// reading when the suffix flag is set.
    pub fn log_stream_name(&self) -> (r: String)
        ensures
            exists|t: int| r@ == spec_effective_stream_name(
                self.log_stream_name@, self.suffix_stream_name_with_timestamp, t),
            !self.suffix_stream_name_with_timestamp ==> r@ == self.log_stream_name@,
    {
        let now = now_unix_seconds();
        let r = effective_stream_name(
            self.log_stream_name.as_str(),
            self.suffix_stream_name_with_timestamp,
            now,
        );
        proof {
            assert(r@ == spec_effective_stream_name(
                self.log_stream_name@, self.suffix_stream_name_with_timestamp, now as int));
        }
        r
    }
}

} // verus!
