//! Attaching a table whose data already lies in storage: where its last
//! snapshot is found, and the table meta made from that snapshot.
use vstd::prelude::*;
use vstd::utf8::{decode_utf8, encode_utf8, is_char_boundary, valid_utf8, valid_utf8_split};
use crate::interpreters::CreateOption;
use crate::kvapi::{utf8_to_string, Tenant};
use crate::text::{chars_of, extend_str, str_eq, string_of};

verus! {

/// The file, under a table's storage prefix, that names its last snapshot.
pub open spec fn last_snapshot_hint_path(storage_prefix: Seq<char>) -> Seq<char> {
    storage_prefix + "/"@ + "last_snapshot_location_hint"@
}

/// The options of a table, as (key, value) pairs with distinct keys.
pub open spec fn option_views(options: Seq<(String, String)>) -> Seq<(Seq<char>, Seq<char>)> {
    options.map_values(|p: (String, String)| (p.0@, p.1@))
}

/// The options after `key` is set to `value`: an existing key keeps its
/// place with the new value, a new key is added at the end.
pub open spec fn options_with(options: Seq<(Seq<char>, Seq<char>)>, key: Seq<char>, value: Seq<char>) -> Seq<
    (Seq<char>, Seq<char>),
> {
    if exists|i: int| 0 <= i < options.len() && #[trigger] options[i].0 == key {
        options.map_values(
            |p: (Seq<char>, Seq<char>)|
                if p.0 == key {
                    (key, value)
                } else {
                    p
                },
        )
    } else {
        options.push((key, value))
    }
}

/// Sets the option `key` to `value`.
pub fn set_option(options: &mut Vec<(String, String)>, key: &str, value: &str)
    ensures
        option_views(final(options)@) == options_with(option_views(old(options)@), key@, value@),
{
    let ghost before = option_views(options@);
    let mut found = false;
    let mut i: usize = 0;
    while i < options.len()
        invariant
            i <= options@.len(),
            before.len() == options@.len(),
            before == option_views(old(options)@),
            forall|k: int|
                0 <= k < i ==> (#[trigger] options@[k]).0@ == before[k].0 && options@[k].1@ == (
                if before[k].0 == key@ {
                    value@
                } else {
                    before[k].1
                }),
            forall|k: int|
                i <= k < options@.len() ==> (#[trigger] options@[k]).0@ == before[k].0
                    && options@[k].1@ == before[k].1,
            found == exists|k: int| 0 <= k < i && #[trigger] before[k].0 == key@,
        decreases options.len() - i,
    {
        let ghost prev = options@;
        let same = str_eq(options[i].0.as_str(), key);
        if same {
            let k = options[i].0.clone();
            options.set(i, (k, value.to_owned()));
            found = true;
        }
        proof {
            assert(before[i as int].0 == prev[i as int].0@);
            if same {
                assert(before[i as int].0 == key@);
            }
            assert forall|k: int| 0 <= k < options@.len() && k != i implies options@[k] == prev[k] by {}
        }
        i = i + 1;
    }
    proof {
        assert forall|k: int| 0 <= k < options@.len() implies #[trigger] option_views(options@)[k]
            == (if before[k].0 == key@ {
            (key@, value@)
        } else {
            before[k]
        }) by {
            assert(option_views(options@)[k] == (options@[k].0@, options@[k].1@));
        }
    }
    if !found {
        let ghost mid = options@;
        options.push((key.to_owned(), value.to_owned()));
        proof {
            assert forall|k: int| 0 <= k < before.len() implies before[k].0 != key@ by {
                if before[k].0 == key@ {
                    assert(exists|j: int| 0 <= j < i && #[trigger] before[j].0 == key@);
                }
            }
            assert forall|k: int| 0 <= k < before.len() implies option_views(options@)[k] == before[k] by {
                assert(options@[k] == mid[k]);
                assert(option_views(mid)[k] == (mid[k].0@, mid[k].1@));
            }
            assert(option_views(options@)[before.len() as int] == (key@, value@));
        }
        assert(option_views(options@) =~= before.push((key@, value@)));
    } else {
        assert(option_views(options@) =~= before.map_values(
            |p: (Seq<char>, Seq<char>)|
                if p.0 == key@ {
                    (key@, value@)
                } else {
                    p
                },
        ));
    }
}

/// The summary a table snapshot keeps of its data.
#[derive(Debug, PartialEq, Eq, Structural, Clone, Copy)]
pub struct SnapshotSummary {
    pub row_count: u64,
    pub block_count: u64,
    pub uncompressed_byte_size: u64,
    pub compressed_byte_size: u64,
    pub index_size: u64,
}

/// The statistics of a table.
#[derive(Debug, PartialEq, Eq, Structural, Clone, Copy)]
pub struct TableStatistics {
    pub number_of_rows: u64,
    pub data_bytes: u64,
    pub compressed_data_bytes: u64,
    pub index_data_bytes: u64,
    pub number_of_segments: Option<u64>,
    pub number_of_blocks: Option<u64>,
}

/// The statistics of an attached table, taken from its last snapshot.
pub fn attached_statistics(summary: SnapshotSummary, num_segments: u64) -> (s: TableStatistics)
    ensures
        s == attached_statistics_spec(summary, num_segments),
{
    TableStatistics {
        number_of_rows: summary.row_count,
        data_bytes: summary.uncompressed_byte_size,
        compressed_data_bytes: summary.compressed_byte_size,
        index_data_bytes: summary.index_size,
        number_of_segments: Some(num_segments),
        number_of_blocks: Some(summary.block_count),
    }
}

/// What an attached table is created with: its engine, its options (with
/// the snapshot location set), an empty comment per field, and the
/// statistics of the snapshot; it has no cluster key and is not dropped.
#[derive(Debug)]
pub struct AttachedTableMeta {
    pub engine: String,
    pub options: Vec<(String, String)>,
    pub field_comments: Vec<String>,
    pub statistics: TableStatistics,
}

/// The request that creates an attached table: its create option, its name
/// (tenant, database, table), its meta, the storage parameters and schema of
/// its meta (kept as the caller's values), and whether it is created as
/// dropped.
#[derive(Debug)]
pub struct AttachTableRequest<P, S> {
    pub create_option: CreateOption,
    pub tenant: Tenant,
    pub db_name: String,
    pub table_name: String,
    pub meta: AttachedTableMeta,
    pub storage_params: Option<P>,
    pub schema: S,
    pub as_dropped: bool,
}

/// The statistics of an attached table, as `attached_statistics` makes
/// them.
pub open spec fn attached_statistics_spec(summary: SnapshotSummary, num_segments: u64) -> TableStatistics {
    TableStatistics {
        number_of_rows: summary.row_count,
        data_bytes: summary.uncompressed_byte_size,
        compressed_data_bytes: summary.compressed_byte_size,
        index_data_bytes: summary.index_size,
        number_of_segments: Some(num_segments),
        number_of_blocks: Some(summary.block_count),
    }
}

/// The handler that attaches tables stored elsewhere.
#[derive(Debug)]
pub struct RealAttachTableHandler {}

impl RealAttachTableHandler {
    /// The path of the file that names the table's last snapshot.
    pub fn snapshot_hint_path(storage_prefix: &str) -> (p: String)
        ensures
            p@ == last_snapshot_hint_path(storage_prefix@),
    {
        let mut m = chars_of(storage_prefix);
        extend_str(&mut m, "/");
        extend_str(&mut m, "last_snapshot_location_hint");
        string_of(&m)
    }

    /// The location of the last snapshot named by the hint file's bytes
    /// `hint`: its text without the storage root `root` it starts with (as
    /// many bytes as the root has); `None` when the hint is not UTF-8. The
    /// root must end where a character of the hint starts.
    pub fn snapshot_location(hint: Vec<u8>, root: &str) -> (r: Option<String>)
        requires
            valid_utf8(hint@) ==> is_char_boundary(hint@, encode_utf8(root@).len() as int),
        ensures
            r is Some <==> valid_utf8(hint@),
            r matches Some(s) ==> s@ == decode_utf8(
                hint@.subrange(encode_utf8(root@).len() as int, hint@.len() as int),
            ),
    {
        let n = root.as_bytes().len();
        let ghost whole = hint@;
        if n > hint.len() {
            let r = utf8_to_string(hint);
            proof {
                if valid_utf8(whole) {
                    assert(!is_char_boundary(whole, n as int));
                }
            }
            return r;
        }
        let mut tail: Vec<u8> = Vec::new();
        let mut i: usize = n;
        while i < hint.len()
            invariant
                n <= i <= hint@.len(),
                hint@ == whole,
                tail@ == whole.subrange(n as int, i as int),
            decreases hint.len() - i,
        {
            tail.push(hint[i]);
            i = i + 1;
            assert(tail@ =~= whole.subrange(n as int, i as int));
        }
        let checked = utf8_to_string(hint);
        if checked.is_none() {
            return None;
        }
        proof {
            valid_utf8_split(whole, n as int);
        }
        utf8_to_string(tail)
    }

    /// The request creating an attached table: named by tenant, database and
    /// table, created with `create_option` and not as dropped; its meta has
    /// the table's engine, its storage parameters, its options with the
    /// snapshot location set, the snapshot's schema with an empty comment per
    /// field (`num_fields` of them), and the snapshot's statistics.
    pub fn build_attach_table_request<P, S>(
        create_option: CreateOption,
        tenant: Tenant,
        database: &str,
        table: &str,
        engine: &str,
        storage_params: P,
        options: Vec<(String, String)>,
        snapshot_location: &str,
        schema: S,
        num_fields: usize,
        summary: SnapshotSummary,
        num_segments: u64,
    ) -> (r: AttachTableRequest<P, S>)
        ensures
            r.create_option == create_option,
            r.tenant == tenant,
            r.db_name@ == database@,
            r.table_name@ == table@,
            !r.as_dropped,
            r.storage_params == Some(storage_params),
            r.schema == schema,
            r.meta.engine@ == engine@,
            option_views(r.meta.options@) == options_with(
                option_views(options@),
                "snapshot_location"@,
                snapshot_location@,
            ),
            r.meta.field_comments@.len() == num_fields,
            forall|i: int| 0 <= i < num_fields ==> (#[trigger] r.meta.field_comments@[i])@.len() == 0,
            r.meta.statistics == attached_statistics_spec(summary, num_segments),
    {
        let meta = Self::attached_table_meta(
            engine,
            options,
            snapshot_location,
            num_fields,
            summary,
            num_segments,
        );
        AttachTableRequest {
            create_option,
            tenant,
            db_name: database.to_owned(),
            table_name: table.to_owned(),
            meta,
            storage_params: Some(storage_params),
            schema,
            as_dropped: false,
        }
    }

    /// The table meta of an attached table whose last snapshot is at
    /// `snapshot_location` and has `num_fields` fields.
    pub fn attached_table_meta(
        engine: &str,
        options: Vec<(String, String)>,
        snapshot_location: &str,
        num_fields: usize,
        summary: SnapshotSummary,
        num_segments: u64,
    ) -> (m: AttachedTableMeta)
        ensures
            m.engine@ == engine@,
            option_views(m.options@) == options_with(
                option_views(options@),
                "snapshot_location"@,
                snapshot_location@,
            ),
            m.field_comments@.len() == num_fields,
            forall|i: int| 0 <= i < num_fields ==> (#[trigger] m.field_comments@[i])@.len() == 0,
            m.statistics == attached_statistics_spec(summary, num_segments),
    {
        let mut options = options;
        set_option(&mut options, "snapshot_location", snapshot_location);
        let mut comments: Vec<String> = Vec::new();
        let mut i: usize = 0;
        while i < num_fields
            invariant
                i <= num_fields,
                comments@.len() == i,
                forall|k: int| 0 <= k < i ==> (#[trigger] comments@[k])@.len() == 0,
            decreases num_fields - i,
        {
            comments.push(String::new());
            i = i + 1;
        }
        AttachedTableMeta {
            engine: engine.to_owned(),
            options,
            field_comments: comments,
            statistics: attached_statistics(summary, num_segments),
        }
    }
}

} // verus!
