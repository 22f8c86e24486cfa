//! Statistics of the knowledge base, assembled from the counts the database
//! returns.
use crate::clock::{is_rfc3339, now_rfc3339, rfc3339_valid};
use crate::documents::clock_failed_text;
use crate::domain::PiBrainStats;
use crate::error::DatabaseError;
use vstd::prelude::*;

verus! {

/// The time of the latest update: the database's `MAX(updated_at)` when
/// there is one and it reads as RFC 3339, otherwise `now`.
pub open spec fn last_updated_of(raw: Option<Option<String>>, now: Seq<char>) -> Seq<char> {
    match raw {
        Some(Some(s)) => if rfc3339_valid(s@) {
            s@
        } else {
            now
        },
        _ => now,
    }
}

/// The estimate of distinct tags: two per document.
pub open spec fn unique_tags_estimate(total_documents: i64) -> int {
    total_documents * 2
}

/// Assembles the statistics, given the current time for the case where no
/// latest update can be read.
pub fn assemble_stats(
    total_documents: i64,
    total_links: i64,
    database_size_bytes: i64,
    last_updated_raw: Option<Option<String>>,
    now: String,
) -> (r: PiBrainStats)
    requires
        i64::MIN <= total_documents * 2 <= i64::MAX,
    ensures
        r.total_documents == total_documents,
        r.total_links == total_links,
        r.unique_tags == unique_tags_estimate(total_documents),
        r.database_size_bytes == database_size_bytes,
        r.last_updated@ == last_updated_of(last_updated_raw, now@),
{
    let ghost raw = last_updated_raw;
    let last_updated = match last_updated_raw {
        Some(Some(s)) => if is_rfc3339(s.as_str()) {
            s
        } else {
            now
        },
        _ => now,
    };
    PiBrainStats {
        total_documents,
        total_links,
        unique_tags: total_documents * 2,
        database_size_bytes,
        last_updated,
    }
}

/// Assembles the statistics; when no latest update can be read, the last
/// update is the current time (and an error answers a clock that cannot be
/// read then).
pub fn get_stats(
    total_documents: i64,
    total_links: i64,
    database_size_bytes: i64,
    last_updated_raw: Option<Option<String>>,
) -> (r: Result<PiBrainStats, DatabaseError>)
    requires
        i64::MIN <= total_documents * 2 <= i64::MAX,
    ensures
        match r {
            Ok(s) => {
                &&& s.total_documents == total_documents
                &&& s.total_links == total_links
                &&& s.unique_tags == unique_tags_estimate(total_documents)
                &&& s.database_size_bytes == database_size_bytes
                &&& rfc3339_valid(s.last_updated@)
                &&& s.last_updated@ == last_updated_of(last_updated_raw, s.last_updated@)
            },
            Err(e) => !stored_time_readable(last_updated_raw) && (e matches DatabaseError::Operation(m)
                && m@ == clock_failed_text()),
        },
        stored_time_readable(last_updated_raw) ==> r is Ok,
{
    let fresh = match &last_updated_raw {
        Some(Some(s)) => is_rfc3339(s.as_str()),
        _ => false,
    };
    let now = if fresh {
        String::new()
    } else {
        match now_rfc3339() {
            Some(t) => t,
            None => {
                proof {
                    reveal_strlit("Failed to read the clock.");
                }
                return Err(DatabaseError::Operation("Failed to read the clock.".to_string()));
            },
        }
    };
    Ok(assemble_stats(total_documents, total_links, database_size_bytes, last_updated_raw, now))
}

/// The database gave a latest update time that reads as RFC 3339.
pub open spec fn stored_time_readable(raw: Option<Option<String>>) -> bool {
    raw matches Some(Some(s)) && rfc3339_valid(s@)
}

} // verus!
