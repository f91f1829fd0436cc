//! In-memory registry of dynamic plugin records.

use vstd::prelude::*;

use crate::dynamic::manifest::{
    manifest_problem, recorded, DynamicPluginManifest, DynamicPluginManifestLoad,
};
use crate::dynamic::record::{
    bump_generation, changed, current_timestamp, is_noted, is_timestamp, stamp_creation_metadata,
    DynamicPluginAttestationMode, DynamicPluginCheckState, DynamicPluginCompatibility,
    DynamicPluginFailure, DynamicPluginKind, DynamicPluginLoadContract, DynamicPluginMetadata,
    DynamicPluginRecord, DynamicPluginRuntimeStatus, DynamicPluginSource, DynamicPluginSpec,
    DynamicPluginStartupClass, DynamicPluginStatus, DynamicPluginValidationStatus, WorkerRuntime,
};
use crate::error::{failure, invalid, invalid_config, ErrorView, PluginError, PluginErrorKind};
use crate::relay_version::{baseline_problem, validate_dynamic_plugin_relay_baseline};
use crate::text::{
    blank, clone_opt, concat3, is_blank, lemma_less_irreflexive, lemma_less_transitive,
    lemma_trimmed_idempotent, less, text_eq, trim, trimmed,
};
use crate::text_map::{first_at, keys_ascend, lemma_entries_domain, lemma_unique_first, TextMap};

verus! {

/// The texts of a compatibility contract.
pub ghost enum CompatibilityView {
    /// Relay range and native API version.
    RustDynamic(Seq<char>, Seq<char>),
    /// Relay range and worker protocol.
    Worker(Seq<char>, Seq<char>),
}

/// The texts of a load contract.
pub ghost enum LoadView {
    /// Worker runtime and entrypoint.
    Worker(WorkerRuntime, Seq<char>),
    /// Library path and symbol.
    RustDynamic(Seq<char>, Seq<char>),
}

impl View for DynamicPluginCompatibility {
    type V = CompatibilityView;

    open spec fn view(&self) -> CompatibilityView {
        match *self {
            DynamicPluginCompatibility::RustDynamic(c) => CompatibilityView::RustDynamic(
                c.relay@,
                c.native_api@,
            ),
            DynamicPluginCompatibility::Worker(c) => CompatibilityView::Worker(
                c.relay@,
                c.worker_protocol@,
            ),
        }
    }
}

impl View for DynamicPluginLoadContract {
    type V = LoadView;

    open spec fn view(&self) -> LoadView {
        match *self {
            DynamicPluginLoadContract::Worker(l) => LoadView::Worker(l.runtime, l.entrypoint@),
            DynamicPluginLoadContract::RustDynamic(l) => LoadView::RustDynamic(
                l.library@,
                l.symbol@,
            ),
        }
    }
}

/// A compatibility contract without surrounding whitespace.
pub open spec fn trimmed_compatibility(c: CompatibilityView) -> CompatibilityView {
    match c {
        CompatibilityView::RustDynamic(relay, api) => CompatibilityView::RustDynamic(
            trimmed(relay),
            trimmed(api),
        ),
        CompatibilityView::Worker(relay, protocol) => CompatibilityView::Worker(
            trimmed(relay),
            trimmed(protocol),
        ),
    }
}

/// A load contract without surrounding whitespace.
pub open spec fn trimmed_load(l: LoadView) -> LoadView {
    match l {
        LoadView::Worker(runtime, entrypoint) => LoadView::Worker(runtime, trimmed(entrypoint)),
        LoadView::RustDynamic(library, symbol) => LoadView::RustDynamic(
            trimmed(library),
            trimmed(symbol),
        ),
    }
}

/// Whether `out` is `record` with its identifier and contracts trimmed and all
/// else kept.
pub open spec fn trims(out: DynamicPluginRecord, record: DynamicPluginRecord) -> bool {
    &&& out.metadata.id@ == trimmed(record.metadata.id@)
    &&& out.metadata == (DynamicPluginMetadata { id: out.metadata.id, ..record.metadata })
    &&& out.compatibility@ == trimmed_compatibility(record.compatibility@)
    &&& out.load@ == trimmed_load(record.load@)
    &&& out.source == record.source
    &&& out.spec == record.spec
    &&& out.status == record.status
}

/// The problem of a native record's contracts.
pub open spec fn rust_dynamic_problem(c: CompatibilityView, l: LoadView) -> Option<ErrorView> {
    match c {
        CompatibilityView::Worker(_, _) => invalid(
            "dynamic rust_dynamic record has invalid compatibility shape"@,
        ),
        CompatibilityView::RustDynamic(relay, api) => match baseline_problem(
            Some(relay),
            "dynamic"@,
        ) {
            Some(e) => Some(e),
            None => if trimmed(api) != "1"@ {
                invalid(
                    "dynamic rust_dynamic record has invalid compatibility shape; expected native_api = \"1\""@,
                )
            } else {
                match l {
                    LoadView::RustDynamic(library, symbol) if !blank(library) && !blank(
                        symbol,
                    ) => None,
                    _ => invalid("dynamic rust_dynamic record has invalid load shape"@),
                }
            },
        },
    }
}

/// The problem of a worker record's contracts.
pub open spec fn worker_problem(c: CompatibilityView, l: LoadView) -> Option<ErrorView> {
    match c {
        CompatibilityView::RustDynamic(_, _) => invalid(
            "dynamic worker record has invalid compatibility shape"@,
        ),
        CompatibilityView::Worker(relay, protocol) => match baseline_problem(
            Some(relay),
            "dynamic"@,
        ) {
            Some(e) => Some(e),
            None => if trimmed(protocol) != "grpc-v1"@ {
                invalid(
                    "dynamic worker record has invalid compatibility shape; expected worker_protocol = \"grpc-v1\""@,
                )
            } else {
                match l {
                    LoadView::Worker(_, entrypoint) if !blank(entrypoint) => None,
                    _ => invalid("dynamic worker record has invalid load shape"@),
                }
            },
        },
    }
}

/// The problem of a record's identifier, lane and contracts.
pub open spec fn shape_problem(
    id: Seq<char>,
    kind: DynamicPluginKind,
    c: CompatibilityView,
    l: LoadView,
) -> Option<ErrorView> {
    if blank(id) {
        invalid("dynamic plugin id must not be empty"@)
    } else {
        match kind {
            DynamicPluginKind::RustDynamic => rust_dynamic_problem(c, l),
            DynamicPluginKind::Worker => worker_problem(c, l),
        }
    }
}

/// The problem of a record once it is trimmed.
pub open spec fn record_problem(record: DynamicPluginRecord) -> Option<ErrorView> {
    shape_problem(
        trimmed(record.metadata.id@),
        record.metadata.kind,
        trimmed_compatibility(record.compatibility@),
        trimmed_load(record.load@),
    )
}

/// Whether a record is trimmed, and its identifier, lane and contracts agree.
pub open spec fn well_shaped(record: DynamicPluginRecord) -> bool {
    &&& trims(record, record)
    &&& shape_problem(
        record.metadata.id@,
        record.metadata.kind,
        record.compatibility@,
        record.load@,
    ) is None
}

/// The text of a fact about one plugin.
pub open spec fn plugin_message(id: Seq<char>, fact: Seq<char>) -> Seq<char> {
    "dynamic plugin '"@ + id + fact
}

/// The error for an identifier that no record has.
pub open spec fn not_registered(id: Seq<char>) -> ErrorView {
    (PluginErrorKind::NotFound, plugin_message(id, "' is not registered"@))
}

/// The error for a change of desired state on a tombstone.
pub open spec fn has_been_removed(id: Seq<char>) -> ErrorView {
    (PluginErrorKind::Conflict, plugin_message(id, "' has been removed"@))
}

/// The error for adding a record whose identifier is in use.
pub open spec fn already_registered(id: Seq<char>) -> ErrorView {
    (PluginErrorKind::Conflict, plugin_message(id, "' is already registered"@))
}

/// The metadata of a record that follows a tombstone at `now`: created when the tombstone was,
/// and updated now, unless the record brings times of its own.
pub open spec fn inheriting(
    metadata: DynamicPluginMetadata,
    existing: DynamicPluginMetadata,
    now: String,
) -> DynamicPluginMetadata {
    DynamicPluginMetadata {
        created_at: match metadata.created_at {
            Some(t) => Some(t),
            None => existing.created_at,
        },
        updated_at: match metadata.updated_at {
            Some(t) => Some(t),
            None => Some(now),
        },
        generation: crate::dynamic::record::next_generation(existing.generation),
        ..metadata
    }
}

/// In-memory dynamic plugin registry used by the control plane.
pub struct DynamicPluginRegistry {
    /// The records by identifier.
    pub records: TextMap<DynamicPluginRecord>,
}

impl View for DynamicPluginRegistry {
    type V = Map<Seq<char>, DynamicPluginRecord>;

    open spec fn view(&self) -> Map<Seq<char>, DynamicPluginRecord> {
        self.records@
    }
}

impl DynamicPluginRegistry {
    /// Whether the entries are in identifier order, and each record has the
    /// identifier that it is kept under and contracts that agree with its lane.
    pub open spec fn wf(self) -> bool {
        &&& self.records.ordered()
        &&& forall|i: int|
            0 <= i < self.records.entries@.len() ==> {
                let e = #[trigger] self.records.entries@[i];
                e.1.metadata.id@ == e.0@ && well_shaped(e.1)
            }
    }

    /// The records that `list` gives, in identifier order.
    pub open spec fn listed(self, include_tombstoned: bool) -> Seq<DynamicPluginRecord> {
        listed_records(self.records.entries@, include_tombstoned)
    }
}

/// The records of a list of entries, without tombstones unless they are asked
/// for.
pub open spec fn listed_records(
    entries: Seq<(String, DynamicPluginRecord)>,
    include_tombstoned: bool,
) -> Seq<DynamicPluginRecord>
    decreases entries.len(),
{
    if entries.len() == 0 {
        Seq::empty()
    } else {
        let before = listed_records(entries.drop_last(), include_tombstoned);
        if include_tombstoned || !entries.last().1.tombstoned() {
            before.push(entries.last().1)
        } else {
            before
        }
    }
}

/// Every record of a well-formed registry has the identifier that it is kept
/// under and contracts that agree with its lane.
pub proof fn lemma_registry_entry(registry: DynamicPluginRegistry, id: Seq<char>)
    requires
        registry.wf(),
        registry@.contains_key(id),
    ensures
        registry@[id].metadata.id@ == id,
        well_shaped(registry@[id]),
{
    let entries = registry.records.entries@;
    lemma_entries_domain(entries, id);
    let i = choose|i: int| 0 <= i < entries.len() && (#[trigger] entries[i]).0@ == id;
    lemma_unique_first(entries, i);
    crate::text_map::lemma_entries_first(entries, id, i);
}

/// Replacing the record at a position keeps the registry well-formed.
proof fn lemma_replace_keeps_wf(
    before: DynamicPluginRegistry,
    after: DynamicPluginRegistry,
    i: int,
    record: DynamicPluginRecord,
)
    requires
        before.wf(),
        0 <= i < before.records.entries@.len(),
        after.records.entries@ == before.records.entries@.update(
            i,
            (before.records.entries@[i].0, record),
        ),
        record.metadata.id@ == before.records.entries@[i].0@,
        well_shaped(record),
    ensures
        after.wf(),
{
    let entries = before.records.entries@;
    assert forall|a: int, b: int| 0 <= a < b < entries.len() implies less(
        (#[trigger] after.records.entries@[a]).0@,
        (#[trigger] after.records.entries@[b]).0@,
    ) by {
        assert(less(entries[a].0@, entries[b].0@));
    }
}

/// Trims a record's identifier and contracts.
pub fn normalize_record_shape(record: &mut DynamicPluginRecord)
    ensures
        trims(*final(record), *old(record)),
        trims(*final(record), *final(record)),
{
    let ghost given = *record;
    record.metadata.id = trim(record.metadata.id.as_str()).to_owned();
    match &mut record.compatibility {
        DynamicPluginCompatibility::RustDynamic(compatibility) => {
            compatibility.relay = trim(compatibility.relay.as_str()).to_owned();
            compatibility.native_api = trim(compatibility.native_api.as_str()).to_owned();
        },
        DynamicPluginCompatibility::Worker(compatibility) => {
            compatibility.relay = trim(compatibility.relay.as_str()).to_owned();
            compatibility.worker_protocol = trim(compatibility.worker_protocol.as_str()).to_owned();
        },
    }
    match &mut record.load {
        DynamicPluginLoadContract::Worker(load) => {
            load.entrypoint = trim(load.entrypoint.as_str()).to_owned();
        },
        DynamicPluginLoadContract::RustDynamic(load) => {
            load.library = trim(load.library.as_str()).to_owned();
            load.symbol = trim(load.symbol.as_str()).to_owned();
        },
    }
    proof {
        lemma_trims_idempotent(given);
    }
}

/// Trimming a record a second time changes nothing.
proof fn lemma_trims_idempotent(record: DynamicPluginRecord)
    ensures
        trimmed(trimmed(record.metadata.id@)) == trimmed(record.metadata.id@),
        trimmed_compatibility(trimmed_compatibility(record.compatibility@))
            == trimmed_compatibility(record.compatibility@),
        trimmed_load(trimmed_load(record.load@)) == trimmed_load(record.load@),
{
    lemma_trimmed_idempotent(record.metadata.id@);
    match record.compatibility@ {
        CompatibilityView::RustDynamic(a, b) => {
            lemma_trimmed_idempotent(a);
            lemma_trimmed_idempotent(b);
        },
        CompatibilityView::Worker(a, b) => {
            lemma_trimmed_idempotent(a);
            lemma_trimmed_idempotent(b);
        },
    }
    match record.load@ {
        LoadView::Worker(_, a) => lemma_trimmed_idempotent(a),
        LoadView::RustDynamic(a, b) => {
            lemma_trimmed_idempotent(a);
            lemma_trimmed_idempotent(b);
        },
    }
}

/// Checks a native record's contracts.
pub fn validate_rust_dynamic_record(record: &DynamicPluginRecord) -> (r: Result<(), PluginError>)
    ensures
        failure(r) == rust_dynamic_problem(record.compatibility@, record.load@),
{
    match &record.compatibility {
        DynamicPluginCompatibility::Worker(_) => Err(
            invalid_config("dynamic rust_dynamic record has invalid compatibility shape"),
        ),
        DynamicPluginCompatibility::RustDynamic(compatibility) => {
            match validate_dynamic_plugin_relay_baseline(
                Some(compatibility.relay.as_str()),
                "dynamic",
            ) {
                Err(e) => return Err(e),
                Ok(()) => {},
            }
            if !text_eq(trim(compatibility.native_api.as_str()), "1") {
                return Err(
                    invalid_config(
                        "dynamic rust_dynamic record has invalid compatibility shape; expected native_api = \"1\"",
                    ),
                );
            }
            let valid_load = match &record.load {
                DynamicPluginLoadContract::RustDynamic(load) => !is_blank(load.library.as_str())
                    && !is_blank(load.symbol.as_str()),
                DynamicPluginLoadContract::Worker(_) => false,
            };
            if valid_load {
                Ok(())
            } else {
                Err(invalid_config("dynamic rust_dynamic record has invalid load shape"))
            }
        },
    }
}

/// Checks a worker record's contracts.
pub fn validate_worker_record(record: &DynamicPluginRecord) -> (r: Result<(), PluginError>)
    ensures
        failure(r) == worker_problem(record.compatibility@, record.load@),
{
    match &record.compatibility {
        DynamicPluginCompatibility::RustDynamic(_) => Err(
            invalid_config("dynamic worker record has invalid compatibility shape"),
        ),
        DynamicPluginCompatibility::Worker(compatibility) => {
            match validate_dynamic_plugin_relay_baseline(
                Some(compatibility.relay.as_str()),
                "dynamic",
            ) {
                Err(e) => return Err(e),
                Ok(()) => {},
            }
            if !text_eq(trim(compatibility.worker_protocol.as_str()), "grpc-v1") {
                return Err(
                    invalid_config(
                        "dynamic worker record has invalid compatibility shape; expected worker_protocol = \"grpc-v1\"",
                    ),
                );
            }
            let valid_load = match &record.load {
                DynamicPluginLoadContract::Worker(load) => !is_blank(load.entrypoint.as_str()),
                DynamicPluginLoadContract::RustDynamic(_) => false,
            };
            if valid_load {
                Ok(())
            } else {
                Err(invalid_config("dynamic worker record has invalid load shape"))
            }
        },
    }
}

/// Checks that a record's identifier, lane and contracts agree.
pub fn validate_record_shape(record: &DynamicPluginRecord) -> (r: Result<(), PluginError>)
    ensures
        failure(r) == shape_problem(
            record.metadata.id@,
            record.metadata.kind,
            record.compatibility@,
            record.load@,
        ),
{
    if is_blank(record.metadata.id.as_str()) {
        return Err(invalid_config("dynamic plugin id must not be empty"));
    }
    match record.metadata.kind {
        DynamicPluginKind::RustDynamic => validate_rust_dynamic_record(record),
        DynamicPluginKind::Worker => validate_worker_record(record),
    }
}

/// Carries creation time and generation over from a tombstone, which the record replaces at
/// `now`.
pub fn inherit_tombstoned_lineage(
    metadata: &mut DynamicPluginMetadata,
    existing: &DynamicPluginMetadata,
    now: &String,
)
    ensures
        *final(metadata) == inheriting(*old(metadata), *existing, *now),
{
    if metadata.updated_at.is_none() {
        metadata.updated_at = Some(now.clone());
    }
    if metadata.created_at.is_none() {
        metadata.created_at = clone_opt(&existing.created_at);
    }
    metadata.generation = if existing.generation < u64::MAX {
        existing.generation + 1
    } else {
        existing.generation
    };
}

/// Refuses a change of desired state on a tombstone.
pub fn ensure_live_record(record: &DynamicPluginRecord, plugin_id: &str) -> (r: Result<
    (),
    PluginError,
>)
    ensures
        failure(r) == (if record.tombstoned() {
            Some(has_been_removed(plugin_id@))
        } else {
            None
        }),
{
    if record.is_tombstoned() {
        Err(
            PluginError::Conflict(
                concat3("dynamic plugin '", plugin_id, "' has been removed"),
            ),
        )
    } else {
        Ok(())
    }
}

impl DynamicPluginRegistry {
    /// Creates an empty dynamic plugin registry.
    pub fn new() -> (r: Self)
        ensures
            r.wf(),
            r@ == Map::<Seq<char>, DynamicPluginRecord>::empty(),
            r.records.entries@ == Seq::<(String, DynamicPluginRecord)>::empty(),
    {
        DynamicPluginRegistry { records: TextMap::new() }
    }

    /// Returns the registered record for `plugin_id`, if present.
    pub fn get(&self, plugin_id: &str) -> (r: Option<&DynamicPluginRecord>)
        ensures
            match r {
                Some(record) => self@.contains_key(plugin_id@) && *record == self@[plugin_id@],
                None => !self@.contains_key(plugin_id@),
            },
    {
        self.records.get(plugin_id)
    }

    /// The position of a record, or the error for an identifier that none has.
    fn lookup(&self, plugin_id: &str) -> (r: Result<usize, PluginError>)
        ensures
            match r {
                Ok(i) => first_at(self.records.entries@, plugin_id@, i as int)
                    && self@.contains_key(plugin_id@) && self@[plugin_id@]
                    == self.records.entries@[i as int].1,
                Err(e) => !self@.contains_key(plugin_id@) && e@ == not_registered(plugin_id@),
            },
    {
        match self.records.find(plugin_id) {
            Some(i) => Ok(i),
            None => Err(
                PluginError::NotFound(
                    concat3("dynamic plugin '", plugin_id, "' is not registered"),
                ),
            ),
        }
    }

    /// Replaces the record at a position by one with the same identifier.
    fn store(&mut self, i: usize, record: DynamicPluginRecord)
        requires
            old(self).wf(),
            i < old(self).records.entries@.len(),
            record.metadata.id@ == old(self).records.entries@[i as int].0@,
            well_shaped(record),
        ensures
            final(self).wf(),
            final(self)@ == old(self)@.insert(record.metadata.id@, record),
    {
        proof {
            lemma_unique_first(self.records.entries@, i as int);
        }
        let ghost before = *self;
        self.records.set_value(i, record);
        proof {
            lemma_replace_keeps_wf(before, *self, i as int, record);
        }
    }

    /// Adds a new dynamic plugin record, with `now` as the time of the change.
    pub fn add_at(&mut self, record: DynamicPluginRecord, now: String) -> (r: Result<
        (),
        PluginError,
    >)
        requires
            old(self).wf(),
        ensures
            final(self).wf(),
            failure(r) == add_problem(old(self)@, record),
            r is Err ==> *final(self) == *old(self),
            r is Ok ==> {
                let id = trimmed(record.metadata.id@);
                &&& final(self)@.contains_key(id)
                &&& final(self)@ == old(self)@.insert(id, final(self)@[id])
                &&& added(final(self)@[id], record, old(self)@, now)
            },
    {
        let mut record = record;
        let ghost given = record;
        normalize_record_shape(&mut record);
        match validate_record_shape(&record) {
            Err(e) => return Err(e),
            Ok(()) => {},
        }
        record.spec.present = true;
        match self.records.find(record.metadata.id.as_str()) {
            Some(i) => {
                let existing = &self.records.entries[i].1;
                if !existing.is_tombstoned() {
                    return Err(
                        PluginError::Conflict(
                            concat3(
                                "dynamic plugin '",
                                record.metadata.id.as_str(),
                                "' is already registered",
                            ),
                        ),
                    );
                }
                inherit_tombstoned_lineage(&mut record.metadata, &existing.metadata, &now);
                stamp_creation_metadata(&mut record.metadata, now);
                self.store(i, record);
            },
            None => {
                stamp_creation_metadata(&mut record.metadata, now);
                let key = record.metadata.id.clone();
                let ghost before = *self;
                self.records.insert(key, record);
                proof {
                    lemma_insert_keeps_wf(before, *self, key, record);
                }
            },
        }
        Ok(())
    }
}

/// What a change of one record is refused with.
pub open spec fn lookup_problem(
    records: Map<Seq<char>, DynamicPluginRecord>,
    id: Seq<char>,
) -> Option<ErrorView> {
    if records.contains_key(id) {
        None
    } else {
        Some(not_registered(id))
    }
}

/// What a change of desired state is refused with.
pub open spec fn live_problem(
    records: Map<Seq<char>, DynamicPluginRecord>,
    id: Seq<char>,
) -> Option<ErrorView> {
    if !records.contains_key(id) {
        Some(not_registered(id))
    } else if records[id].tombstoned() {
        Some(has_been_removed(id))
    } else {
        None
    }
}

/// The records after one was set enabled or disabled at `now`: unchanged where
/// it was so before, else with the next generation.
pub open spec fn with_enabled(
    records: Map<Seq<char>, DynamicPluginRecord>,
    id: Seq<char>,
    enabled: bool,
    now: String,
) -> Map<Seq<char>, DynamicPluginRecord> {
    let record = records[id];
    if record.spec.enabled == enabled {
        records
    } else {
        records.insert(
            id,
            DynamicPluginRecord {
                metadata: changed(record.metadata, now),
                spec: DynamicPluginSpec { enabled, ..record.spec },
                ..record
            },
        )
    }
}

/// The records after one was removed at `now`: unchanged where it is a tombstone
/// already, else a disabled tombstone with the next generation.
pub open spec fn with_removed(
    records: Map<Seq<char>, DynamicPluginRecord>,
    id: Seq<char>,
    now: String,
) -> Map<Seq<char>, DynamicPluginRecord> {
    let record = records[id];
    if record.tombstoned() {
        records
    } else {
        records.insert(
            id,
            DynamicPluginRecord {
                metadata: changed(record.metadata, now),
                spec: DynamicPluginSpec { present: false, enabled: false, ..record.spec },
                ..record
            },
        )
    }
}

/// The records with the status of one replaced.
pub open spec fn with_status(
    records: Map<Seq<char>, DynamicPluginRecord>,
    id: Seq<char>,
    status: DynamicPluginStatus,
) -> Map<Seq<char>, DynamicPluginRecord> {
    records.insert(id, DynamicPluginRecord { status, ..records[id] })
}

impl DynamicPluginRegistry {
    /// Adds a new dynamic plugin record.
    ///
    /// This is a trusted internal control-plane API. Callers that start from an
    /// authored `relay-plugin.toml` manifest should prefer `add_manifest` so the
    /// manifest contract is enforced before record creation.
    pub fn add(&mut self, record: DynamicPluginRecord) -> (r: Result<
        &DynamicPluginRecord,
        PluginError,
    >)
        requires
            old(self).wf(),
        ensures
            final(self).wf(),
            failure(r) == add_problem(old(self)@, record),
            r is Err ==> *final(self) == *old(self),
            r matches Ok(kept) ==> {
                let id = trimmed(record.metadata.id@);
                &&& final(self)@ == old(self)@.insert(id, *kept)
                &&& exists|now: String|
                    is_timestamp(now@) && #[trigger] added(*kept, record, old(self)@, now)
            },
    {
        let now = current_timestamp();
        let id = trim(record.metadata.id.as_str()).to_owned();
        match self.add_at(record, now) {
            Err(e) => Err(e),
            Ok(()) => match self.records.find(id.as_str()) {
                Some(i) => Ok(&self.records.entries[i].1),
                None => {
                    assert(false);
                    Err(invalid_config("dynamic plugin record is missing"))
                },
            },
        }
    }

    /// Sets a record's desired enabled state at `now`, and says whether that was
    /// a change.
    pub fn set_enabled_at(&mut self, plugin_id: &str, enabled: bool, now: String) -> (r: Result<
        bool,
        PluginError,
    >)
        requires
            old(self).wf(),
        ensures
            final(self).wf(),
            failure(r) == live_problem(old(self)@, plugin_id@),
            r is Err ==> *final(self) == *old(self),
            r matches Ok(changed) ==> {
                &&& changed == (old(self)@[plugin_id@].spec.enabled != enabled)
                &&& final(self)@ == with_enabled(old(self)@, plugin_id@, enabled, now)
            },
    {
        match self.lookup(plugin_id) {
            Err(e) => Err(e),
            Ok(i) => {
                let record = &self.records.entries[i].1;
                match ensure_live_record(record, plugin_id) {
                    Err(e) => return Err(e),
                    Ok(()) => {},
                }
                if record.spec.enabled == enabled {
                    return Ok(false);
                }
                let mut updated = record.clone();
                updated.spec.enabled = enabled;
                bump_generation(&mut updated, now);
                self.store(i, updated);
                Ok(true)
            },
        }
    }

    /// Marks the plugin enabled in desired state.
    pub fn enable(&mut self, plugin_id: &str) -> (r: Result<bool, PluginError>)
        requires
            old(self).wf(),
        ensures
            final(self).wf(),
            failure(r) == live_problem(old(self)@, plugin_id@),
            r is Err ==> *final(self) == *old(self),
            r matches Ok(changed) ==> {
                &&& changed == !old(self)@[plugin_id@].spec.enabled
                &&& exists|now: String|
                    is_timestamp(now@) && final(self)@ == #[trigger] with_enabled(
                        old(self)@,
                        plugin_id@,
                        true,
                        now,
                    )
            },
    {
        self.set_enabled_at(plugin_id, true, current_timestamp())
    }

    /// Marks the plugin disabled in desired state.
    pub fn disable(&mut self, plugin_id: &str) -> (r: Result<bool, PluginError>)
        requires
            old(self).wf(),
        ensures
            final(self).wf(),
            failure(r) == live_problem(old(self)@, plugin_id@),
            r is Err ==> *final(self) == *old(self),
            r matches Ok(changed) ==> {
                &&& changed == old(self)@[plugin_id@].spec.enabled
                &&& exists|now: String|
                    is_timestamp(now@) && final(self)@ == #[trigger] with_enabled(
                        old(self)@,
                        plugin_id@,
                        false,
                        now,
                    )
            },
    {
        self.set_enabled_at(plugin_id, false, current_timestamp())
    }

    /// Tombstones a record at `now`, and says whether that was a change.
    pub fn remove_at(&mut self, plugin_id: &str, now: String) -> (r: Result<bool, PluginError>)
        requires
            old(self).wf(),
        ensures
            final(self).wf(),
            failure(r) == lookup_problem(old(self)@, plugin_id@),
            r is Err ==> *final(self) == *old(self),
            r matches Ok(changed) ==> {
                &&& changed == !old(self)@[plugin_id@].tombstoned()
                &&& final(self)@ == with_removed(old(self)@, plugin_id@, now)
            },
    {
        match self.lookup(plugin_id) {
            Err(e) => Err(e),
            Ok(i) => {
                let record = &self.records.entries[i].1;
                if record.is_tombstoned() {
                    return Ok(false);
                }
                let mut updated = record.clone();
                updated.spec.present = false;
                updated.spec.enabled = false;
                bump_generation(&mut updated, now);
                self.store(i, updated);
                Ok(true)
            },
        }
    }

    /// Tombstones the plugin record and disables desired runtime realization.
    pub fn remove(&mut self, plugin_id: &str) -> (r: Result<bool, PluginError>)
        requires
            old(self).wf(),
        ensures
            final(self).wf(),
            failure(r) == lookup_problem(old(self)@, plugin_id@),
            r is Err ==> *final(self) == *old(self),
            r matches Ok(changed) ==> {
                &&& changed == !old(self)@[plugin_id@].tombstoned()
                &&& exists|now: String|
                    is_timestamp(now@) && final(self)@ == #[trigger] with_removed(
                        old(self)@,
                        plugin_id@,
                        now,
                    )
            },
    {
        self.remove_at(plugin_id, current_timestamp())
    }

    /// Replaces a record's observed status.
    fn set_status(&mut self, plugin_id: &str, status: DynamicPluginStatus) -> (r: Result<
        (),
        PluginError,
    >)
        requires
            old(self).wf(),
        ensures
            final(self).wf(),
            failure(r) == lookup_problem(old(self)@, plugin_id@),
            r is Err ==> *final(self) == *old(self),
            r is Ok ==> final(self)@ == with_status(old(self)@, plugin_id@, status),
    {
        match self.lookup(plugin_id) {
            Err(e) => Err(e),
            Ok(i) => {
                let mut updated = self.records.entries[i].1.clone();
                updated.status = status;
                self.store(i, updated);
                Ok(())
            },
        }
    }

    /// The status of a record.
    fn status_of(&self, plugin_id: &str) -> (r: Result<DynamicPluginStatus, PluginError>)
        ensures
            failure(r) == lookup_problem(self@, plugin_id@),
            r matches Ok(status) ==> status == self@[plugin_id@].status,
    {
        match self.lookup(plugin_id) {
            Err(e) => Err(e),
            Ok(i) => Ok(self.records.entries[i].1.status.clone()),
        }
    }

    /// Replaces the current validation status, checked at `now`, without mutating
    /// desired state.
    pub fn update_validation_status_at(
        &mut self,
        plugin_id: &str,
        validation: DynamicPluginValidationStatus,
        now: String,
    ) -> (r: Result<(), PluginError>)
        requires
            old(self).wf(),
        ensures
            final(self).wf(),
            failure(r) == lookup_problem(old(self)@, plugin_id@),
            r is Err ==> *final(self) == *old(self),
            r is Ok ==> final(self)@ == with_status(
                old(self)@,
                plugin_id@,
                DynamicPluginStatus {
                    validation: DynamicPluginValidationStatus {
                        checked_at: Some(now),
                        ..validation
                    },
                    ..old(self)@[plugin_id@].status
                },
            ),
    {
        match self.status_of(plugin_id) {
            Err(e) => Err(e),
            Ok(status) => {
                let mut status = status;
                status.validation = validation;
                status.validation.checked_at = Some(now);
                self.set_status(plugin_id, status)
            },
        }
    }

    /// Replaces the current validation status without mutating desired state.
    pub fn update_validation_status(
        &mut self,
        plugin_id: &str,
        validation: DynamicPluginValidationStatus,
    ) -> (r: Result<(), PluginError>)
        requires
            old(self).wf(),
        ensures
            final(self).wf(),
            failure(r) == lookup_problem(old(self)@, plugin_id@),
            r is Err ==> *final(self) == *old(self),
            r is Ok ==> {
                let checked_at = final(self)@[plugin_id@].status.validation.checked_at;
                &&& is_noted(checked_at)
                &&& final(self)@ == with_status(
                    old(self)@,
                    plugin_id@,
                    DynamicPluginStatus {
                        validation: DynamicPluginValidationStatus { checked_at, ..validation },
                        ..old(self)@[plugin_id@].status
                    },
                )
            },
    {
        self.update_validation_status_at(plugin_id, validation, current_timestamp())
    }

    /// Replaces the current runtime status, observed at `now`, without mutating
    /// desired state.
    pub fn update_runtime_status_at(
        &mut self,
        plugin_id: &str,
        runtime: DynamicPluginRuntimeStatus,
        now: String,
    ) -> (r: Result<(), PluginError>)
        requires
            old(self).wf(),
        ensures
            final(self).wf(),
            failure(r) == lookup_problem(old(self)@, plugin_id@),
            r is Err ==> *final(self) == *old(self),
            r is Ok ==> final(self)@ == with_status(
                old(self)@,
                plugin_id@,
                DynamicPluginStatus {
                    runtime: DynamicPluginRuntimeStatus { updated_at: Some(now), ..runtime },
                    ..old(self)@[plugin_id@].status
                },
            ),
    {
        match self.status_of(plugin_id) {
            Err(e) => Err(e),
            Ok(status) => {
                let mut status = status;
                status.runtime = runtime;
                status.runtime.updated_at = Some(now);
                self.set_status(plugin_id, status)
            },
        }
    }

    /// Replaces the current runtime status without mutating desired state.
    pub fn update_runtime_status(&mut self, plugin_id: &str, runtime: DynamicPluginRuntimeStatus)
        -> (r: Result<(), PluginError>)
        requires
            old(self).wf(),
        ensures
            final(self).wf(),
            failure(r) == lookup_problem(old(self)@, plugin_id@),
            r is Err ==> *final(self) == *old(self),
            r is Ok ==> {
                let updated_at = final(self)@[plugin_id@].status.runtime.updated_at;
                &&& is_noted(updated_at)
                &&& final(self)@ == with_status(
                    old(self)@,
                    plugin_id@,
                    DynamicPluginStatus {
                        runtime: DynamicPluginRuntimeStatus { updated_at, ..runtime },
                        ..old(self)@[plugin_id@].status
                    },
                )
            },
    {
        self.update_runtime_status_at(plugin_id, runtime, current_timestamp())
    }

    /// Records the most recent dynamic-plugin failure summary.
    pub fn update_last_error(
        &mut self,
        plugin_id: &str,
        last_error: Option<DynamicPluginFailure>,
    ) -> (r: Result<(), PluginError>)
        requires
            old(self).wf(),
        ensures
            final(self).wf(),
            failure(r) == lookup_problem(old(self)@, plugin_id@),
            r is Err ==> *final(self) == *old(self),
            r is Ok ==> final(self)@ == with_status(
                old(self)@,
                plugin_id@,
                DynamicPluginStatus { last_error, ..old(self)@[plugin_id@].status },
            ),
    {
        match self.status_of(plugin_id) {
            Err(e) => Err(e),
            Ok(status) => {
                let mut status = status;
                status.last_error = last_error;
                self.set_status(plugin_id, status)
            },
        }
    }

    /// Replaces the resolved worker environment and its validation state, checked
    /// at `now`.
    pub fn update_environment_at(
        &mut self,
        plugin_id: &str,
        environment_ref: Option<String>,
        environment: DynamicPluginCheckState,
        now: String,
    ) -> (r: Result<(), PluginError>)
        requires
            old(self).wf(),
        ensures
            final(self).wf(),
            failure(r) == lookup_problem(old(self)@, plugin_id@),
            r is Err ==> *final(self) == *old(self),
            r is Ok ==> final(self)@ == with_environment(
                old(self)@,
                plugin_id@,
                environment_ref,
                environment,
                Some(now),
            ),
    {
        match self.lookup(plugin_id) {
            Err(e) => Err(e),
            Ok(i) => {
                let mut updated = self.records.entries[i].1.clone();
                updated.source.environment_ref = environment_ref;
                updated.status.validation.environment = environment;
                updated.status.validation.checked_at = Some(now);
                self.store(i, updated);
                Ok(())
            },
        }
    }

    /// Replaces the resolved worker environment and its validation state.
    pub fn update_environment(
        &mut self,
        plugin_id: &str,
        environment_ref: Option<String>,
        environment: DynamicPluginCheckState,
    ) -> (r: Result<(), PluginError>)
        requires
            old(self).wf(),
        ensures
            final(self).wf(),
            failure(r) == lookup_problem(old(self)@, plugin_id@),
            r is Err ==> *final(self) == *old(self),
            r is Ok ==> {
                let checked_at = final(self)@[plugin_id@].status.validation.checked_at;
                &&& is_noted(checked_at)
                &&& final(self)@ == with_environment(
                    old(self)@,
                    plugin_id@,
                    environment_ref,
                    environment,
                    checked_at,
                )
            },
    {
        self.update_environment_at(plugin_id, environment_ref, environment, current_timestamp())
    }

    /// Replaces the current host-policy outcome without mutating desired state.
    pub fn update_policy_status(
        &mut self,
        plugin_id: &str,
        policy_satisfied: DynamicPluginCheckState,
        startup_class: DynamicPluginStartupClass,
        attestation_mode: DynamicPluginAttestationMode,
        last_error: Option<DynamicPluginFailure>,
    ) -> (r: Result<(), PluginError>)
        requires
            old(self).wf(),
        ensures
            final(self).wf(),
            failure(r) == lookup_problem(old(self)@, plugin_id@),
            r is Err ==> *final(self) == *old(self),
            r is Ok ==> final(self)@ == with_status(
                old(self)@,
                plugin_id@,
                DynamicPluginStatus {
                    validation: DynamicPluginValidationStatus {
                        policy_satisfied,
                        ..old(self)@[plugin_id@].status.validation
                    },
                    startup_class: Some(startup_class),
                    attestation_mode: Some(attestation_mode),
                    last_error,
                    ..old(self)@[plugin_id@].status
                },
            ),
    {
        match self.status_of(plugin_id) {
            Err(e) => Err(e),
            Ok(status) => {
                let mut status = status;
                status.validation.policy_satisfied = policy_satisfied;
                status.startup_class = Some(startup_class);
                status.attestation_mode = Some(attestation_mode);
                status.last_error = last_error;
                self.set_status(plugin_id, status)
            },
        }
    }

    /// Clones records for serialization or higher-level projection.
    pub fn cloned_records(&self, include_tombstoned: bool) -> (r: Vec<DynamicPluginRecord>)
        ensures
            r@ == self.listed(include_tombstoned),
    {
        let mut out: Vec<DynamicPluginRecord> = Vec::new();
        let mut i: usize = 0;
        let ghost entries = self.records.entries@;
        while i < self.records.entries.len()
            invariant
                i <= self.records.entries.len(),
                entries == self.records.entries@,
                out@ == listed_records(entries.take(i as int), include_tombstoned),
            decreases self.records.entries.len() - i,
        {
            let record = &self.records.entries[i].1;
            assert(entries.take(i + 1).drop_last() =~= entries.take(i as int));
            if include_tombstoned || !record.is_tombstoned() {
                out.push(record.clone());
            }
            i += 1;
        }
        assert(entries.take(entries.len() as int) =~= entries);
        out
    }

    /// Lists records in identifier order, hiding tombstones unless requested.
    pub fn list(&self, include_tombstoned: bool) -> (r: Vec<&DynamicPluginRecord>)
        ensures
            dereferenced(r@) == self.listed(include_tombstoned),
    {
        let mut out: Vec<&DynamicPluginRecord> = Vec::new();
        let mut i: usize = 0;
        let ghost entries = self.records.entries@;
        assert(dereferenced(out@) =~= Seq::empty());
        while i < self.records.entries.len()
            invariant
                i <= self.records.entries.len(),
                entries == self.records.entries@,
                dereferenced(out@) == listed_records(entries.take(i as int), include_tombstoned),
            decreases self.records.entries.len() - i,
        {
            let record = &self.records.entries[i].1;
            assert(entries.take(i + 1).drop_last() =~= entries.take(i as int));
            if include_tombstoned || !record.is_tombstoned() {
                let ghost before = out@;
                out.push(record);
                assert(dereferenced(out@) =~= dereferenced(before).push(*record));
            }
            i += 1;
        }
        assert(entries.take(entries.len() as int) =~= entries);
        out
    }
}

/// The values behind a list of references.
pub open spec fn dereferenced<T>(items: Seq<&T>) -> Seq<T> {
    Seq::new(items.len(), |i: int| *items[i])
}

/// The records with the environment of one replaced.
pub open spec fn with_environment(
    records: Map<Seq<char>, DynamicPluginRecord>,
    id: Seq<char>,
    environment_ref: Option<String>,
    environment: DynamicPluginCheckState,
    checked_at: Option<String>,
) -> Map<Seq<char>, DynamicPluginRecord> {
    let record = records[id];
    records.insert(
        id,
        DynamicPluginRecord {
            source: DynamicPluginSource { environment_ref, ..record.source },
            status: DynamicPluginStatus {
                validation: DynamicPluginValidationStatus {
                    environment,
                    checked_at,
                    ..record.status.validation
                },
                ..record.status
            },
            ..record
        },
    )
}

/// The record of a valid manifest has no problem of its own: its identifier is
/// not blank and its contracts agree with its lane.
pub proof fn law_manifest_record_is_well_shaped(
    record: DynamicPluginRecord,
    manifest: DynamicPluginManifest,
    manifest_ref: Option<String>,
    now: Option<String>,
)
    requires
        manifest_problem(manifest) is None,
        recorded(record, manifest, manifest_ref, now),
    ensures
        record_problem(record) is None,
        trims(record, record),
{
    lemma_trimmed_idempotent(manifest.plugin.id@);
    lemma_trimmed_idempotent(manifest.compat.relay->0@);
    match manifest.plugin.kind {
        DynamicPluginKind::RustDynamic => {
            lemma_trimmed_idempotent(manifest.compat.native_api->0@);
            match manifest.load {
                DynamicPluginManifestLoad::RustDynamic(l) => {
                    lemma_trimmed_idempotent(l.library->0@);
                    lemma_trimmed_idempotent(l.symbol->0@);
                },
                DynamicPluginManifestLoad::Worker(_) => {},
            }
        },
        DynamicPluginKind::Worker => {
            lemma_trimmed_idempotent(manifest.compat.worker_protocol->0@);
            match manifest.load {
                DynamicPluginManifestLoad::Worker(l) => {
                    lemma_trimmed_idempotent(l.entrypoint->0@);
                },
                DynamicPluginManifestLoad::RustDynamic(_) => {},
            }
        },
    }
}

/// What registering a manifest is refused with.
pub open spec fn add_manifest_problem(
    records: Map<Seq<char>, DynamicPluginRecord>,
    manifest: DynamicPluginManifest,
) -> Option<ErrorView> {
    let id = trimmed(manifest.plugin.id@);
    match manifest_problem(manifest) {
        Some(e) => Some(e),
        None => if records.contains_key(id) && !records[id].tombstoned() {
            Some(already_registered(id))
        } else {
            None
        },
    }
}

/// Whether `kept` is what registering a manifest at some time leaves in place.
pub open spec fn manifest_added(
    kept: DynamicPluginRecord,
    manifest: DynamicPluginManifest,
    manifest_ref: Option<String>,
    records: Map<Seq<char>, DynamicPluginRecord>,
    record: DynamicPluginRecord,
    now: String,
) -> bool {
    &&& is_noted(record.status.validation.checked_at)
    &&& recorded(record, manifest, manifest_ref, record.status.validation.checked_at)
    &&& is_timestamp(now@)
    &&& added(kept, record, records, now)
}

/// The error for a record whose identifier an earlier one has.
pub open spec fn duplicated(id: Seq<char>) -> ErrorView {
    (
        PluginErrorKind::Conflict,
        plugin_message(id, "' is duplicated in persisted registry state"@),
    )
}

/// Whether an earlier record of the list has the identifier of the last one.
pub open spec fn repeats_last_id(records: Seq<DynamicPluginRecord>) -> bool {
    exists|j: int|
        0 <= j < records.len() - 1 && trimmed((#[trigger] records[j]).metadata.id@) == trimmed(
            records.last().metadata.id@,
        )
}

/// The first problem of a list of persisted records.
pub open spec fn records_problem(records: Seq<DynamicPluginRecord>) -> Option<ErrorView>
    decreases records.len(),
{
    if records.len() == 0 {
        None
    } else {
        match records_problem(records.drop_last()) {
            Some(e) => Some(e),
            None => match record_problem(records.last()) {
                Some(e) => Some(e),
                None => if repeats_last_id(records) {
                    Some(duplicated(trimmed(records.last().metadata.id@)))
                } else {
                    None
                },
            },
        }
    }
}

/// A problem among the first records is the problem of the whole list.
proof fn lemma_records_problem_found(records: Seq<DynamicPluginRecord>, n: int)
    requires
        0 <= n <= records.len(),
        records_problem(records.take(n)) is Some,
    ensures
        records_problem(records) == records_problem(records.take(n)),
    decreases records.len(),
{
    if n == records.len() {
        assert(records.take(n) =~= records);
    } else {
        assert(records.drop_last().take(n) =~= records.take(n));
        lemma_records_problem_found(records.drop_last(), n);
    }
}

/// Whether a registry holds exactly the given records, each trimmed and under its
/// identifier.
pub open spec fn restores(
    held: Map<Seq<char>, DynamicPluginRecord>,
    records: Seq<DynamicPluginRecord>,
) -> bool {
    &&& forall|i: int|
        0 <= i < records.len() ==> {
            let id = trimmed((#[trigger] records[i]).metadata.id@);
            held.contains_key(id) && trims(held[id], records[i])
        }
    &&& forall|id: Seq<char>| #[trigger]
        held.contains_key(id) ==> exists|i: int|
            0 <= i < records.len() && trimmed((#[trigger] records[i]).metadata.id@) == id
}

impl DynamicPluginRegistry {
    /// Reconstructs a registry from previously persisted durable records.
    pub fn from_records(records: Vec<DynamicPluginRecord>) -> (r: Result<Self, PluginError>)
        ensures
            failure(r) == records_problem(records@),
            r matches Ok(registry) ==> registry.wf() && restores(registry@, records@),
    {
        let mut registry = DynamicPluginRegistry::new();
        let mut i: usize = 0;
        let ghost all = records@;
        while i < records.len()
            invariant
                i <= records.len(),
                all == records@,
                registry.wf(),
                records_problem(all.take(i as int)) is None,
                restores(registry@, all.take(i as int)),
            decreases records.len() - i,
        {
            let mut record = records[i].clone();
            let ghost seen = all.take(i as int);
            let ghost next = all.take(i + 1);
            let ghost id = trimmed(record.metadata.id@);
            assert(next.drop_last() =~= seen);
            assert(next.last() == record);
            normalize_record_shape(&mut record);
            match validate_record_shape(&record) {
                Err(e) => {
                    proof {
                        lemma_records_problem_found(all, i + 1);
                    }
                    return Err(e);
                },
                Ok(()) => {},
            }
            if registry.records.contains_key(record.metadata.id.as_str()) {
                proof {
                    let j = choose|j: int|
                        0 <= j < seen.len() && trimmed((#[trigger] seen[j]).metadata.id@) == id;
                    assert(next[j] == seen[j]);
                    assert(repeats_last_id(next));
                    lemma_records_problem_found(all, i + 1);
                }
                return Err(
                    PluginError::Conflict(
                        concat3(
                            "dynamic plugin '",
                            record.metadata.id.as_str(),
                            "' is duplicated in persisted registry state",
                        ),
                    ),
                );
            }
            proof {
                assert forall|j: int| 0 <= j < next.len() - 1 implies trimmed(
                    (#[trigger] next[j]).metadata.id@,
                ) != id by {
                    assert(next[j] == seen[j]);
                }
            }
            let ghost before = registry;
            let key = record.metadata.id.clone();
            registry.records.insert(key, record);
            proof {
                lemma_insert_keeps_wf(before, registry, key, record);
                assert forall|k: int| 0 <= k < next.len() implies {
                    let id = trimmed((#[trigger] next[k]).metadata.id@);
                    registry@.contains_key(id) && trims(registry@[id], next[k])
                } by {
                    if k < seen.len() {
                        assert(next[k] == seen[k]);
                    }
                }
                assert forall|other: Seq<char>| #[trigger]
                    registry@.contains_key(other) implies exists|k: int|
                    0 <= k < next.len() && trimmed((#[trigger] next[k]).metadata.id@) == other by {
                    if other == id {
                        assert(trimmed(next[i as int].metadata.id@) == other);
                    } else {
                        assert(before@.contains_key(other));
                        let k = choose|k: int|
                            0 <= k < seen.len() && trimmed((#[trigger] seen[k]).metadata.id@)
                                == other;
                        assert(next[k] == seen[k]);
                    }
                }
            }
            i += 1;
        }
        assert(all.take(all.len() as int) =~= all);
        Ok(registry)
    }

    /// Validates an authored manifest and registers the resulting dynamic plugin
    /// record.
    pub fn add_manifest(
        &mut self,
        manifest: DynamicPluginManifest,
        manifest_ref: Option<String>,
    ) -> (r: Result<&DynamicPluginRecord, PluginError>)
        requires
            old(self).wf(),
        ensures
            final(self).wf(),
            failure(r) == add_manifest_problem(old(self)@, manifest),
            r is Err ==> *final(self) == *old(self),
            r matches Ok(kept) ==> {
                let id = trimmed(manifest.plugin.id@);
                &&& final(self)@ == old(self)@.insert(id, *kept)
                &&& exists|record: DynamicPluginRecord, now: String| #[trigger]
                    manifest_added(*kept, manifest, manifest_ref, old(self)@, record, now)
            },
    {
        match manifest.into_record(manifest_ref) {
            Err(e) => Err(e),
            Ok(record) => {
                proof {
                    law_manifest_record_is_well_shaped(
                        record,
                        manifest,
                        manifest_ref,
                        record.status.validation.checked_at,
                    );
                    lemma_trimmed_idempotent(manifest.plugin.id@);
                }
                let ghost before = self@;
                let r = self.add(record);
                proof {
                    if r is Ok {
                        let now = choose|now: String|
                            is_timestamp(now@) && #[trigger] added(*r->Ok_0, record, before, now);
                        assert(manifest_added(
                            *r->Ok_0,
                            manifest,
                            manifest_ref,
                            before,
                            record,
                            now,
                        ));
                    }
                }
                r
            },
        }
    }
}

/// The records of an ordered registry come in identifier order.
proof fn lemma_listed_all(entries: Seq<(String, DynamicPluginRecord)>)
    ensures
        listed_records(entries, true).len() == entries.len(),
        forall|i: int|
            0 <= i < entries.len() ==> #[trigger] listed_records(entries, true)[i]
                == entries[i].1,
    decreases entries.len(),
{
    if entries.len() > 0 {
        lemma_listed_all(entries.drop_last());
        assert forall|i: int| 0 <= i < entries.len() implies #[trigger] listed_records(
            entries,
            true,
        )[i] == entries[i].1 by {
            if i < entries.len() - 1 {
                assert(listed_records(entries.drop_last(), true)[i] == entries.drop_last()[i].1);
            }
        }
    }
}

/// Restoring a registry from all its own records succeeds and gives back every
/// record under its identifier.
pub proof fn law_records_round_trip(registry: DynamicPluginRegistry)
    requires
        registry.wf(),
    ensures
        records_problem(registry.listed(true)) is None,
        forall|held: Map<Seq<char>, DynamicPluginRecord>| #[trigger]
            restores(held, registry.listed(true)) ==> held.dom() == registry@.dom() && forall|
                id: Seq<char>,
            |
                held.contains_key(id) ==> trims(#[trigger] held[id], registry@[id]),
{
    let entries = registry.records.entries@;
    let all = registry.listed(true);
    lemma_listed_all(entries);
    assert forall|n: int| 0 <= n <= all.len() implies records_problem(
        #[trigger] all.take(n),
    ) is None by {
        lemma_own_records_have_no_problem(registry, n);
    }
    assert(all.take(all.len() as int) =~= all);
    assert forall|held: Map<Seq<char>, DynamicPluginRecord>| #[trigger]
        restores(held, all) implies held.dom() == registry@.dom() && forall|id: Seq<char>|
        held.contains_key(id) ==> trims(#[trigger] held[id], registry@[id]) by {
        assert forall|id: Seq<char>| held.contains_key(id) == registry@.contains_key(id) by {
            lemma_entries_domain(entries, id);
            if held.contains_key(id) {
                let i = choose|i: int|
                    0 <= i < all.len() && trimmed((#[trigger] all[i]).metadata.id@) == id;
                assert(all[i] == entries[i].1);
                assert(entries[i].0@ == id);
            }
            if registry@.contains_key(id) {
                let i = choose|i: int| 0 <= i < entries.len() && (#[trigger] entries[i]).0@ == id;
                assert(all[i] == entries[i].1);
                assert(trimmed(all[i].metadata.id@) == id);
            }
        }
        assert(held.dom() =~= registry@.dom());
        assert forall|id: Seq<char>| held.contains_key(id) implies trims(
            #[trigger] held[id],
            registry@[id],
        ) by {
            let i = choose|i: int|
                0 <= i < all.len() && trimmed((#[trigger] all[i]).metadata.id@) == id;
            assert(all[i] == entries[i].1);
            lemma_unique_first(entries, i);
            crate::text_map::lemma_entries_first(entries, id, i);
        }
    }
}

/// The first records of a well-formed registry have no problem.
proof fn lemma_own_records_have_no_problem(registry: DynamicPluginRegistry, n: int)
    requires
        registry.wf(),
        0 <= n <= registry.records.entries@.len(),
    ensures
        records_problem(registry.listed(true).take(n)) is None,
    decreases n,
{
    let entries = registry.records.entries@;
    let all = registry.listed(true);
    lemma_listed_all(entries);
    if n > 0 {
        let some = all.take(n);
        assert(some.drop_last() =~= all.take(n - 1));
        lemma_own_records_have_no_problem(registry, n - 1);
        let e = entries[n - 1];
        assert(some.last() == e.1);
        lemma_unique_first(entries, n - 1);
        assert forall|j: int| 0 <= j < some.len() - 1 implies trimmed(
            (#[trigger] some[j]).metadata.id@,
        ) != trimmed(some.last().metadata.id@) by {
            assert(some[j] == entries[j].1);
            assert(entries[j].0@ != e.0@);
        }
    }
}

/// The records that are listed, with tombstones or without, come in strictly ascending
/// identifier order.
pub proof fn law_listing_is_ordered(
    registry: DynamicPluginRegistry,
    include_tombstoned: bool,
    i: int,
    j: int,
)
    requires
        registry.wf(),
        0 <= i < j < registry.listed(include_tombstoned).len(),
    ensures
        less(
            registry.listed(include_tombstoned)[i].metadata.id@,
            registry.listed(include_tombstoned)[j].metadata.id@,
        ),
{
    lemma_listed_ascend(registry.records.entries@, include_tombstoned);
}

/// What is listed of entries in key order ascends, and stands under one of the keys.
proof fn lemma_listed_ascend(
    entries: Seq<(String, DynamicPluginRecord)>,
    include_tombstoned: bool,
)
    requires
        keys_ascend(entries),
        forall|i: int|
            0 <= i < entries.len() ==> (#[trigger] entries[i]).1.metadata.id@ == entries[i].0@,
    ensures
        forall|i: int, j: int|
            0 <= i < j < listed_records(entries, include_tombstoned).len() ==> less(
                (#[trigger] listed_records(entries, include_tombstoned)[i]).metadata.id@,
                (#[trigger] listed_records(entries, include_tombstoned)[j]).metadata.id@,
            ),
        forall|i: int|
            0 <= i < listed_records(entries, include_tombstoned).len() ==> exists|k: int|
                0 <= k < entries.len() && (#[trigger] entries[k]).0@ == (
                #[trigger] listed_records(entries, include_tombstoned)[i]).metadata.id@,
    decreases entries.len(),
{
    if entries.len() > 0 {
        let front = entries.drop_last();
        assert forall|i: int, j: int| 0 <= i < j < front.len() implies less(
            (#[trigger] front[i]).0@,
            (#[trigger] front[j]).0@,
        ) by {
            assert(front[i] == entries[i] && front[j] == entries[j]);
        }
        assert forall|i: int| 0 <= i < front.len() implies (#[trigger] front[i]).1.metadata.id@
            == front[i].0@ by {
            assert(front[i] == entries[i]);
        }
        lemma_listed_ascend(front, include_tombstoned);
        let before = listed_records(front, include_tombstoned);
        let now = listed_records(entries, include_tombstoned);
        assert forall|i: int| 0 <= i < now.len() implies exists|k: int|
            0 <= k < entries.len() && (#[trigger] entries[k]).0@ == (#[trigger] now[i]).metadata.id@
        by {
            if i < before.len() {
                assert(now[i] == before[i]);
                let k = choose|k: int|
                    0 <= k < front.len() && (#[trigger] front[k]).0@ == before[i].metadata.id@;
                assert(entries[k] == front[k]);
            } else {
                assert(entries[entries.len() - 1].0@ == now[i].metadata.id@);
            }
        }
        assert forall|i: int, j: int| 0 <= i < j < now.len() implies less(
            (#[trigger] now[i]).metadata.id@,
            (#[trigger] now[j]).metadata.id@,
        ) by {
            assert(now[i] == before[i]);
            if j < before.len() {
                assert(now[j] == before[j]);
            } else {
                let k = choose|k: int|
                    0 <= k < front.len() && (#[trigger] front[k]).0@ == before[i].metadata.id@;
                assert(entries[k] == front[k]);
                assert(less(entries[k].0@, entries[entries.len() - 1].0@));
            }
        }
    }
}

/// Whether two records hold the same texts and values.
pub open spec fn same_record(a: DynamicPluginRecord, b: DynamicPluginRecord) -> bool {
    &&& a.metadata.id@ == b.metadata.id@
    &&& a.metadata == (DynamicPluginMetadata { id: a.metadata.id, ..b.metadata })
    &&& a.compatibility@ == b.compatibility@
    &&& a.load@ == b.load@
    &&& a.source == b.source
    &&& a.spec == b.spec
    &&& a.status == b.status
}

/// Whether two lists hold the same records in the same order.
pub open spec fn same_records(a: Seq<DynamicPluginRecord>, b: Seq<DynamicPluginRecord>) -> bool {
    a.len() == b.len() && forall|i: int|
        0 <= i < a.len() ==> same_record(#[trigger] a[i], b[i])
}

/// A registry that is restored from all records of another lists the same records, with
/// tombstones and without.
pub proof fn law_restored_registry_lists_the_same(
    registry: DynamicPluginRegistry,
    restored: DynamicPluginRegistry,
    include_tombstoned: bool,
)
    requires
        registry.wf(),
        restored.wf(),
        restores(restored@, registry.listed(true)),
    ensures
        same_records(restored.listed(include_tombstoned), registry.listed(include_tombstoned)),
{
    law_records_round_trip(registry);
    let a = restored.records.entries@;
    let b = registry.records.entries@;
    assert forall|id: Seq<char>| #[trigger] has_key(a, id) == has_key(b, id) by {
        lemma_entries_domain(a, id);
        lemma_entries_domain(b, id);
        assert(restored@.dom().contains(id) == registry@.dom().contains(id));
        assert(restored@.contains_key(id) == registry@.contains_key(id));
        if restored@.contains_key(id) {
            let i = choose|i: int| 0 <= i < a.len() && (#[trigger] a[i]).0@ == id;
            assert(has_key(a, id));
            let j = choose|j: int| 0 <= j < b.len() && (#[trigger] b[j]).0@ == id;
            assert(has_key(b, id));
        }
    }
    lemma_same_keys(a, b);
    assert forall|i: int| 0 <= i < a.len() implies same_record((#[trigger] a[i]).1, b[i].1) by {
        let id = a[i].0@;
        assert(b[i].0@ == id);
        lemma_unique_first(a, i);
        crate::text_map::lemma_entries_first(a, id, i);
        lemma_unique_first(b, i);
        crate::text_map::lemma_entries_first(b, id, i);
        assert(restored@[id] == a[i].1);
        assert(registry@[id] == b[i].1);
        assert(trims(a[i].1, b[i].1));
        assert(well_shaped(b[i].1));
    }
    lemma_same_listing(a, b, include_tombstoned);
}

/// Whether an entry stands under a key.
spec fn has_key(entries: Seq<(String, DynamicPluginRecord)>, id: Seq<char>) -> bool {
    exists|i: int| 0 <= i < entries.len() && (#[trigger] entries[i]).0@ == id
}

/// Entries in key order under the same keys have them at the same places.
proof fn lemma_same_keys(
    a: Seq<(String, DynamicPluginRecord)>,
    b: Seq<(String, DynamicPluginRecord)>,
)
    requires
        keys_ascend(a),
        keys_ascend(b),
        forall|id: Seq<char>| #[trigger] has_key(a, id) == has_key(b, id),
    ensures
        a.len() == b.len(),
        forall|i: int| 0 <= i < a.len() ==> (#[trigger] a[i]).0@ == b[i].0@,
    decreases a.len(),
{
    if a.len() == 0 {
        if b.len() > 0 {
            assert(has_key(b, b[0].0@));
            assert(has_key(a, b[0].0@));
        }
    } else {
        let la = a.last().0@;
        assert(a[a.len() - 1].0@ == la);
        assert(has_key(a, la));
        assert(has_key(b, la));
        let j = choose|j: int| 0 <= j < b.len() && (#[trigger] b[j]).0@ == la;
        let lb = b.last().0@;
        assert(b[b.len() - 1].0@ == lb);
        assert(has_key(b, lb));
        assert(has_key(a, lb));
        let i = choose|i: int| 0 <= i < a.len() && (#[trigger] a[i]).0@ == lb;
        lemma_less_irreflexive(la);
        if j < b.len() - 1 {
            assert(less(b[j].0@, b[b.len() - 1].0@));
            if i < a.len() - 1 {
                assert(less(a[i].0@, a[a.len() - 1].0@));
                lemma_less_transitive(la, lb, la);
            }
        }
        assert(la == lb);
        let fa = a.drop_last();
        let fb = b.drop_last();
        lemma_front(a);
        lemma_front(b);
        assert forall|id: Seq<char>| #[trigger] has_key(fa, id) == has_key(fb, id) by {
            assert(has_key(a, id) == has_key(b, id));
        }
        lemma_same_keys(fa, fb);
        assert forall|k: int| 0 <= k < a.len() implies (#[trigger] a[k]).0@ == b[k].0@ by {
            if k < fa.len() {
                assert(fa[k].0@ == fb[k].0@);
            }
        }
    }
}

/// Without their last, entries in key order stay so, and lose its key alone.
proof fn lemma_front(entries: Seq<(String, DynamicPluginRecord)>)
    requires
        entries.len() > 0,
        keys_ascend(entries),
    ensures
        keys_ascend(entries.drop_last()),
        forall|id: Seq<char>| #[trigger]
            has_key(entries.drop_last(), id) == (has_key(entries, id) && id != entries.last().0@),
{
    let front = entries.drop_last();
    assert forall|i: int, j: int| 0 <= i < j < front.len() implies less(
        (#[trigger] front[i]).0@,
        (#[trigger] front[j]).0@,
    ) by {
        assert(front[i] == entries[i] && front[j] == entries[j]);
    }
    assert forall|id: Seq<char>| #[trigger] has_key(front, id) == (has_key(entries, id) && id
        != entries.last().0@) by {
        if has_key(front, id) {
            let i = choose|i: int| 0 <= i < front.len() && (#[trigger] front[i]).0@ == id;
            assert(entries[i] == front[i]);
            assert(less(entries[i].0@, entries[entries.len() - 1].0@));
            lemma_less_irreflexive(id);
        }
        if has_key(entries, id) && id != entries.last().0@ {
            let i = choose|i: int| 0 <= i < entries.len() && (#[trigger] entries[i]).0@ == id;
            assert(front[i] == entries[i]);
        }
    }
}

/// Entries with the same records list the same.
proof fn lemma_same_listing(
    a: Seq<(String, DynamicPluginRecord)>,
    b: Seq<(String, DynamicPluginRecord)>,
    include_tombstoned: bool,
)
    requires
        a.len() == b.len(),
        forall|i: int| 0 <= i < a.len() ==> same_record((#[trigger] a[i]).1, b[i].1),
    ensures
        same_records(
            listed_records(a, include_tombstoned),
            listed_records(b, include_tombstoned),
        ),
    decreases a.len(),
{
    if a.len() > 0 {
        let fa = a.drop_last();
        let fb = b.drop_last();
        assert forall|i: int| 0 <= i < fa.len() implies same_record((#[trigger] fa[i]).1, fb[i].1)
        by {
            assert(fa[i] == a[i]);
        }
        lemma_same_listing(fa, fb, include_tombstoned);
        assert(same_record(a[a.len() - 1].1, b[b.len() - 1].1));
    }
}

/// A listing without tombstones holds exactly the records that are present.
pub proof fn law_listing_hides_tombstones(registry: DynamicPluginRegistry, id: Seq<char>)
    requires
        registry.wf(),
    ensures
        (exists|record: DynamicPluginRecord| #[trigger]
            registry.listed(false).contains(record) && record.metadata.id@ == id) <==> (
        registry@.contains_key(id) && !registry@[id].tombstoned()),
{
    let entries = registry.records.entries@;
    lemma_listed_live(entries);
    lemma_entries_domain(entries, id);
    let live = registry.listed(false);
    if exists|record: DynamicPluginRecord| #[trigger]
        live.contains(record) && record.metadata.id@ == id {
        let record = choose|record: DynamicPluginRecord| #[trigger]
            live.contains(record) && record.metadata.id@ == id;
        let i = choose|i: int|
            0 <= i < entries.len() && (#[trigger] entries[i]).1 == record
                && !record.tombstoned();
        lemma_unique_first(entries, i);
        crate::text_map::lemma_entries_first(entries, id, i);
    }
    if registry@.contains_key(id) && !registry@[id].tombstoned() {
        let i = choose|i: int| 0 <= i < entries.len() && (#[trigger] entries[i]).0@ == id;
        lemma_unique_first(entries, i);
        crate::text_map::lemma_entries_first(entries, id, i);
        assert(live.contains(entries[i].1));
    }
}

/// A live listing holds the records of the entries that are not tombstones.
proof fn lemma_listed_live(entries: Seq<(String, DynamicPluginRecord)>)
    ensures
        forall|record: DynamicPluginRecord| #[trigger]
            listed_records(entries, false).contains(record) ==> exists|i: int|
                0 <= i < entries.len() && (#[trigger] entries[i]).1 == record
                    && !record.tombstoned(),
        forall|i: int|
            0 <= i < entries.len() && !(#[trigger] entries[i]).1.tombstoned() ==> listed_records(
                entries,
                false,
            ).contains(entries[i].1),
    decreases entries.len(),
{
    if entries.len() > 0 {
        let front = entries.drop_last();
        lemma_listed_live(front);
        let live = listed_records(entries, false);
        let before = listed_records(front, false);
        assert forall|record: DynamicPluginRecord| #[trigger] live.contains(record) implies exists|
            i: int,
        |
            0 <= i < entries.len() && (#[trigger] entries[i]).1 == record
                && !record.tombstoned() by {
            if before.contains(record) {
                let i = choose|i: int|
                    0 <= i < front.len() && (#[trigger] front[i]).1 == record
                        && !record.tombstoned();
                assert(entries[i].1 == record);
            } else {
                assert(record == entries.last().1);
                assert(entries[entries.len() - 1].1 == record);
            }
        }
        assert forall|i: int|
            0 <= i < entries.len() && !(#[trigger] entries[i]).1.tombstoned() implies live.contains(
            entries[i].1,
        ) by {
            if i < front.len() {
                assert(front[i] == entries[i]);
                assert(before.contains(front[i].1));
                let k = before.index_of(front[i].1);
                assert(live[k] == before[k]);
            } else {
                assert(live[live.len() - 1] == entries[i].1);
            }
        }
    }
}

/// A change of desired state is counted: whatever enabling, disabling or removing
/// changes about a record, its generation moves on by one (up to the largest), and
/// where nothing changes the generation stays.
pub proof fn law_generation_follows_desired_state(
    records: Map<Seq<char>, DynamicPluginRecord>,
    id: Seq<char>,
    enabled: bool,
    now: String,
)
    requires
        records.contains_key(id),
    ensures
        ({
            let after = with_enabled(records, id, enabled, now);
            &&& after[id].spec.enabled == enabled
            &&& after[id].metadata.generation == (if records[id].spec.enabled == enabled {
                records[id].metadata.generation
            } else {
                crate::dynamic::record::next_generation(records[id].metadata.generation)
            })
            &&& with_enabled(after, id, enabled, now) == after
        }),
        ({
            let after = with_removed(records, id, now);
            &&& after[id].tombstoned()
            &&& after[id].metadata.generation == (if records[id].tombstoned() {
                records[id].metadata.generation
            } else {
                crate::dynamic::record::next_generation(records[id].metadata.generation)
            })
            &&& with_removed(after, id, now) == after
        }),
{
}

/// Adding a record again after it was removed continues its lineage: the new
/// record is present, its generation is above that of the tombstone (up to the
/// largest), and unless it brings its own times it keeps the creation time and was
/// last updated when it was added again.
pub proof fn law_readded_record_continues_lineage(
    records: Map<Seq<char>, DynamicPluginRecord>,
    record: DynamicPluginRecord,
    kept: DynamicPluginRecord,
    now: String,
)
    requires
        records.contains_key(trimmed(record.metadata.id@)),
        records[trimmed(record.metadata.id@)].tombstoned(),
        added(kept, record, records, now),
    ensures
        ({
            let tombstone = records[trimmed(record.metadata.id@)];
            &&& !kept.tombstoned()
            &&& kept.metadata.generation == crate::dynamic::record::next_generation(
                tombstone.metadata.generation,
            )
            &&& record.metadata.created_at is None && tombstone.metadata.created_at is Some
                ==> kept.metadata.created_at == tombstone.metadata.created_at
            &&& record.metadata.updated_at is None ==> kept.metadata.updated_at == Some(now)
            &&& record.metadata.updated_at is Some ==> kept.metadata.updated_at
                == record.metadata.updated_at
        }),
{
}

/// The problem of adding a record.
pub open spec fn add_problem(
    records: Map<Seq<char>, DynamicPluginRecord>,
    record: DynamicPluginRecord,
) -> Option<ErrorView> {
    let id = trimmed(record.metadata.id@);
    match record_problem(record) {
        Some(e) => Some(e),
        None => if records.contains_key(id) && !records[id].tombstoned() {
            Some(already_registered(id))
        } else {
            None
        },
    }
}

/// Whether `out` is the record that adding `record` at `now` leaves in place: the
/// trimmed record, present, with the lineage of a tombstone that it follows and
/// its times filled in.
pub open spec fn added(
    out: DynamicPluginRecord,
    record: DynamicPluginRecord,
    records: Map<Seq<char>, DynamicPluginRecord>,
    now: String,
) -> bool {
    let id = trimmed(record.metadata.id@);
    let lineage = if records.contains_key(id) {
        inheriting(record.metadata, records[id].metadata, now)
    } else {
        record.metadata
    };
    &&& out.metadata.id@ == id
    &&& out.metadata == (DynamicPluginMetadata {
        id: out.metadata.id,
        ..crate::dynamic::record::stamped(lineage, now)
    })
    &&& out.compatibility@ == trimmed_compatibility(record.compatibility@)
    &&& out.load@ == trimmed_load(record.load@)
    &&& out.source == record.source
    &&& out.spec == (DynamicPluginSpec { present: true, ..record.spec })
    &&& out.status == record.status
}

/// Putting in a well-shaped record under its identifier keeps the registry
/// well-formed.
proof fn lemma_insert_keeps_wf(
    before: DynamicPluginRegistry,
    after: DynamicPluginRegistry,
    key: String,
    record: DynamicPluginRecord,
)
    requires
        before.wf(),
        after.records.ordered(),
        after@ == before@.insert(key@, record),
        record.metadata.id@ == key@,
        well_shaped(record),
    ensures
        after.wf(),
{
    let entries = after.records.entries@;
    assert forall|i: int| 0 <= i < entries.len() implies {
        let e = #[trigger] entries[i];
        e.1.metadata.id@ == e.0@ && well_shaped(e.1)
    } by {
        lemma_unique_first(entries, i);
        crate::text_map::lemma_entries_first(entries, entries[i].0@, i);
        assert(after@[entries[i].0@] == entries[i].1);
        if entries[i].0@ != key@ {
            assert(before@.contains_key(entries[i].0@));
            lemma_registry_entry(before, entries[i].0@);
        }
    }
}

/// A record is well shaped exactly where it names its plugin and declares the relay, the interface
/// and what to load of its kind.
pub proof fn law_records_fit_their_kind(
    id: Seq<char>,
    kind: DynamicPluginKind,
    c: CompatibilityView,
    l: LoadView,
)
    ensures
        shape_problem(id, kind, c, l) is None <==> !blank(id) && match kind {
            DynamicPluginKind::RustDynamic => (c matches CompatibilityView::RustDynamic(relay, api)
                && baseline_problem(Some(relay), "dynamic"@) is None && trimmed(api) == "1"@) && (
            l matches LoadView::RustDynamic(library, symbol) && !blank(library) && !blank(symbol)),
            DynamicPluginKind::Worker => (c matches CompatibilityView::Worker(relay, protocol)
                && baseline_problem(Some(relay), "dynamic"@) is None && trimmed(protocol)
                == "grpc-v1"@) && (l matches LoadView::Worker(runtime, entrypoint) && !blank(
                entrypoint,
            )),
        },
        blank(id) ==> shape_problem(id, kind, c, l) == Some(
            (PluginErrorKind::InvalidConfig, "dynamic plugin id must not be empty"@),
        ),
{
}

/// A record is added exactly where it is well shaped and no live record has its identifier; a
/// record is changed only where it is there, and enabled or disabled only where it was not removed.
pub proof fn law_only_live_records_are_in_the_way(
    records: Map<Seq<char>, DynamicPluginRecord>,
    record: DynamicPluginRecord,
    manifest: DynamicPluginManifest,
    id: Seq<char>,
)
    ensures
        add_problem(records, record) is None <==> record_problem(record) is None && !(
        records.contains_key(trimmed(record.metadata.id@)) && records[trimmed(
            record.metadata.id@,
        )].spec.present),
        record_problem(record) is None && add_problem(records, record) is Some ==> add_problem(
            records,
            record,
        ) == Some(
            (
                PluginErrorKind::Conflict,
                "dynamic plugin '"@ + trimmed(record.metadata.id@) + "' is already registered"@,
            ),
        ),
        add_manifest_problem(records, manifest) is None <==> manifest_problem(manifest) is None && !(
        records.contains_key(trimmed(manifest.plugin.id@)) && records[trimmed(
            manifest.plugin.id@,
        )].spec.present),
        lookup_problem(records, id) is None <==> records.contains_key(id),
        live_problem(records, id) is None <==> records.contains_key(id) && records[id].spec.present,
        !records.contains_key(id) ==> live_problem(records, id) == Some(
            (PluginErrorKind::NotFound, "dynamic plugin '"@ + id + "' is not registered"@),
        ) && lookup_problem(records, id) == live_problem(records, id),
        records.contains_key(id) && !records[id].spec.present ==> live_problem(records, id) == Some(
            (PluginErrorKind::Conflict, "dynamic plugin '"@ + id + "' has been removed"@),
        ),
{
}

/// Enabling, disabling and removing change the desired state of one record and note when; removing
/// also disables. Where the record is in that state already, nothing changes.
pub proof fn law_desired_state_changes_alone(
    records: Map<Seq<char>, DynamicPluginRecord>,
    id: Seq<char>,
    other: Seq<char>,
    enabled: bool,
    now: String,
)
    requires
        records.contains_key(id),
    ensures
        ({
            let r = with_enabled(records, id, enabled, now);
            &&& r.dom() == records.dom()
            &&& other != id && records.contains_key(other) ==> r[other] == records[other]
            &&& r[id].spec.enabled == enabled
            &&& r[id].spec.present == records[id].spec.present
            &&& r[id].spec.config_ref == records[id].spec.config_ref
            &&& r[id].status == records[id].status && r[id].source == records[id].source
            &&& r[id].load == records[id].load && r[id].compatibility == records[id].compatibility
            &&& r[id].metadata.created_at == records[id].metadata.created_at
            &&& records[id].spec.enabled != enabled ==> r[id].metadata.updated_at == Some(now)
                && r[id].metadata.generation == if records[id].metadata.generation < u64::MAX {
                (records[id].metadata.generation + 1) as u64
            } else {
                u64::MAX
            }
            &&& records[id].spec.enabled == enabled ==> r == records
        }),
        ({
            let r = with_removed(records, id, now);
            &&& r.dom() == records.dom()
            &&& other != id && records.contains_key(other) ==> r[other] == records[other]
            &&& !r[id].spec.present
            &&& records[id].spec.present ==> !r[id].spec.enabled
            &&& r[id].status == records[id].status && r[id].source == records[id].source
            &&& r[id].load == records[id].load && r[id].compatibility == records[id].compatibility
            &&& records[id].spec.present ==> r[id].metadata.updated_at == Some(now)
                && r[id].metadata.generation == if records[id].metadata.generation < u64::MAX {
                (records[id].metadata.generation + 1) as u64
            } else {
                u64::MAX
            }
            &&& !records[id].spec.present ==> r == records
        }),
{
    assert(with_enabled(records, id, enabled, now).dom() =~= records.dom());
    assert(with_removed(records, id, now).dom() =~= records.dom());
}

/// Noting what was observed of a plugin leaves its desired state, its metadata and every other
/// record as they are.
pub proof fn law_observations_do_not_change_desired_state(
    records: Map<Seq<char>, DynamicPluginRecord>,
    id: Seq<char>,
    other: Seq<char>,
    status: DynamicPluginStatus,
    environment_ref: Option<String>,
    environment: DynamicPluginCheckState,
    checked_at: Option<String>,
)
    requires
        records.contains_key(id),
    ensures
        ({
            let r = with_status(records, id, status);
            &&& r.dom() == records.dom()
            &&& other != id && records.contains_key(other) ==> r[other] == records[other]
            &&& r[id].status == status
            &&& r[id].spec == records[id].spec && r[id].metadata == records[id].metadata
            &&& r[id].source == records[id].source && r[id].load == records[id].load
            &&& r[id].compatibility == records[id].compatibility
        }),
        ({
            let r = with_environment(records, id, environment_ref, environment, checked_at);
            &&& r.dom() == records.dom()
            &&& other != id && records.contains_key(other) ==> r[other] == records[other]
            &&& r[id].spec == records[id].spec && r[id].metadata == records[id].metadata
            &&& r[id].source.environment_ref == environment_ref
            &&& r[id].source.manifest_ref == records[id].source.manifest_ref
            &&& r[id].source.artifact_ref == records[id].source.artifact_ref
            &&& r[id].source.artifact_digest == records[id].source.artifact_digest
            &&& r[id].status.validation.environment == environment
            &&& r[id].status.validation.checked_at == checked_at
            &&& r[id].status.validation.manifest == records[id].status.validation.manifest
            &&& r[id].status.validation.integrity == records[id].status.validation.integrity
            &&& r[id].status.runtime == records[id].status.runtime
            &&& r[id].status.last_error == records[id].status.last_error
        }),
{
    assert(with_status(records, id, status).dom() =~= records.dom());
    assert(with_environment(records, id, environment_ref, environment, checked_at).dom()
        =~= records.dom());
}

/// A record that is new to the registry is kept as it is given, with the white space around its
/// texts taken off: present, in its own generation, and with its times filled in.
pub proof fn law_new_records_are_kept(
    records: Map<Seq<char>, DynamicPluginRecord>,
    record: DynamicPluginRecord,
    kept: DynamicPluginRecord,
    now: String,
)
    requires
        added(kept, record, records, now),
    ensures
        kept.metadata.id@ == trimmed(record.metadata.id@),
        kept.metadata.name == record.metadata.name,
        kept.metadata.version == record.metadata.version,
        kept.metadata.kind == record.metadata.kind,
        kept.spec.present,
        kept.spec.enabled == record.spec.enabled,
        kept.spec.config_ref == record.spec.config_ref,
        kept.source == record.source,
        kept.status == record.status,
        !records.contains_key(trimmed(record.metadata.id@)) ==> {
            &&& kept.metadata.generation == record.metadata.generation
            &&& record.metadata.created_at is Some ==> kept.metadata.created_at
                == record.metadata.created_at
            &&& record.metadata.created_at is None ==> kept.metadata.created_at == Some(now)
            &&& record.metadata.updated_at is Some ==> kept.metadata.updated_at
                == record.metadata.updated_at
            &&& record.metadata.updated_at is None ==> kept.metadata.updated_at
                == kept.metadata.created_at
        },
        record.load@ matches LoadView::Worker(runtime, entrypoint) ==> kept.load@
            == LoadView::Worker(runtime, trimmed(entrypoint)),
        record.load@ matches LoadView::RustDynamic(library, symbol) ==> kept.load@
            == LoadView::RustDynamic(trimmed(library), trimmed(symbol)),
        record.compatibility@ matches CompatibilityView::Worker(relay, protocol)
            ==> kept.compatibility@ == CompatibilityView::Worker(trimmed(relay), trimmed(protocol)),
        record.compatibility@ matches CompatibilityView::RustDynamic(relay, api)
            ==> kept.compatibility@ == CompatibilityView::RustDynamic(trimmed(relay), trimmed(api)),
{
}

/// Persisted records are restored exactly where each is well shaped and no two have the same
/// identifier, white space around it aside.
pub proof fn law_restored_records_are_distinct(records: Seq<DynamicPluginRecord>)
    ensures
        records_problem(records) is None <==> (forall|i: int|
            0 <= i < records.len() ==> record_problem(#[trigger] records[i]) is None) && (forall|
            i: int,
            j: int,
        |
            0 <= i < j < records.len() ==> trimmed((#[trigger] records[i]).metadata.id@) != trimmed(
                (#[trigger] records[j]).metadata.id@,
            )),
    decreases records.len(),
{
    if records.len() > 0 {
        let front = records.drop_last();
        law_restored_records_are_distinct(front);
        if records_problem(records) is None {
            assert forall|i: int| 0 <= i < records.len() implies record_problem(
                #[trigger] records[i],
            ) is None by {
                if i < front.len() {
                    assert(front[i] == records[i]);
                }
            }
            assert forall|i: int, j: int| 0 <= i < j < records.len() implies trimmed(
                (#[trigger] records[i]).metadata.id@,
            ) != trimmed((#[trigger] records[j]).metadata.id@) by {
                assert(front[i] == records[i]);
                if j < front.len() {
                    assert(front[j] == records[j]);
                } else {
                    assert(!repeats_last_id(records));
                }
            }
        }
        if (forall|i: int|
            0 <= i < records.len() ==> record_problem(#[trigger] records[i]) is None) && (forall|
            i: int,
            j: int,
        |
            0 <= i < j < records.len() ==> trimmed((#[trigger] records[i]).metadata.id@) != trimmed(
                (#[trigger] records[j]).metadata.id@,
            )) {
            assert forall|i: int| 0 <= i < front.len() implies record_problem(
                #[trigger] front[i],
            ) is None by {
                assert(front[i] == records[i]);
            }
            assert forall|i: int, j: int| 0 <= i < j < front.len() implies trimmed(
                (#[trigger] front[i]).metadata.id@,
            ) != trimmed((#[trigger] front[j]).metadata.id@) by {
                assert(front[i] == records[i] && front[j] == records[j]);
            }
            assert(record_problem(records[records.len() - 1]) is None);
            if repeats_last_id(records) {
                let j = choose|j: int|
                    0 <= j < records.len() - 1 && trimmed((#[trigger] records[j]).metadata.id@)
                        == trimmed(records.last().metadata.id@);
                assert(trimmed(records[j].metadata.id@) != trimmed(
                    records[records.len() - 1].metadata.id@,
                ));
            }
        }
    }
}

/// What is told of a record that does not fit its kind, or is in the way.
pub proof fn law_misfits_of_records_are_told(
    relay: Seq<char>,
    version: Seq<char>,
    load: LoadView,
    id: Seq<char>,
)
    ensures
        rust_dynamic_problem(CompatibilityView::Worker(relay, version), load) == Some(
            (
                PluginErrorKind::InvalidConfig,
                "dynamic rust_dynamic record has invalid compatibility shape"@,
            ),
        ),
        baseline_problem(Some(relay), "dynamic"@) is None && trimmed(version) != "1"@
            ==> rust_dynamic_problem(CompatibilityView::RustDynamic(relay, version), load) == Some(
            (
                PluginErrorKind::InvalidConfig,
                "dynamic rust_dynamic record has invalid compatibility shape; expected native_api = \"1\""@,
            ),
        ),
        baseline_problem(Some(relay), "dynamic"@) is None && trimmed(version) == "1"@ && load
            is Worker ==> rust_dynamic_problem(
            CompatibilityView::RustDynamic(relay, version),
            load,
        ) == Some(
            (
                PluginErrorKind::InvalidConfig,
                "dynamic rust_dynamic record has invalid load shape"@,
            ),
        ),
        worker_problem(CompatibilityView::RustDynamic(relay, version), load) == Some(
            (
                PluginErrorKind::InvalidConfig,
                "dynamic worker record has invalid compatibility shape"@,
            ),
        ),
        baseline_problem(Some(relay), "dynamic"@) is None && trimmed(version) != "grpc-v1"@
            ==> worker_problem(CompatibilityView::Worker(relay, version), load) == Some(
            (
                PluginErrorKind::InvalidConfig,
                "dynamic worker record has invalid compatibility shape; expected worker_protocol = \"grpc-v1\""@,
            ),
        ),
        baseline_problem(Some(relay), "dynamic"@) is None && trimmed(version) == "grpc-v1"@ && load
            is RustDynamic ==> worker_problem(CompatibilityView::Worker(relay, version), load)
            == Some(
            (PluginErrorKind::InvalidConfig, "dynamic worker record has invalid load shape"@),
        ),
        not_registered(id) == (
            PluginErrorKind::NotFound,
            "dynamic plugin '"@ + id + "' is not registered"@,
        ),
        has_been_removed(id) == (
            PluginErrorKind::Conflict,
            "dynamic plugin '"@ + id + "' has been removed"@,
        ),
        already_registered(id) == (
            PluginErrorKind::Conflict,
            "dynamic plugin '"@ + id + "' is already registered"@,
        ),
        duplicated(id) == (
            PluginErrorKind::Conflict,
            "dynamic plugin '"@ + id + "' is duplicated in persisted registry state"@,
        ),
{
}

} // verus!
