use vstd::prelude::*;
use std::time::SystemTime;

use crate::processes::ProcessesData;
use crate::text::{decimal, push_decimal};
use crate::types::{
    energy_of, kind_of, same_reading, CPUData, DiskData, GPUData, GeneralData, NetworkData,
    RamData, SensorData, SensorKind, AllTimeData,
};
use crate::units::{Byte, EnergyUj, Percent, sat_add};

verus! {

pub type CPUDataDB = CPUData;

pub type GPUDataDB = GPUData;

pub type RamDataDB = RamData;

pub type DiskDataDB = DiskData;

pub type NetworkDataDB = NetworkData;

pub type SensorDataDB = SensorData;

pub type AllTimeDataDB = AllTimeData;

/// Raw RGBA icon pixel data.
#[derive(Debug, Clone)]
pub struct IconData {
    pub width: u32,
    pub height: u32,
    pub pixels: Vec<u8>,
}

/// Per-application resource usage snapshot.
#[derive(Debug, Clone)]
pub struct ProcessDataDB {
    pub app_name: String,
    pub process_exe_path: Option<String>,
    pub process_energy: EnergyUj,
    pub process_cpu_usage: Percent,
    pub process_gpu_usage: Option<Percent>,
    pub process_mem_usage: Percent,
    pub read_bytes: Byte,
    pub written_bytes: Byte,
    pub subprocess_count: u32,
    pub icon: Option<IconData>,
}

/// Aggregated total consumption across all components.
#[derive(Debug, Clone, Copy, PartialEq, Eq)]
pub struct TotalDataDB {
    pub total_energy: EnergyUj,
}

/// The tables and hardware description stored once per database.
#[derive(Debug)]
pub struct GeneralDataDB {
    pub tables: String,
    pub hardware_info_serialized: String,
}

/// Sensor data as the database stores it.
#[derive(Debug)]
pub enum DataDB {
    Sensor(SensorDataDB),
    Process(Vec<ProcessDataDB>),
    Total(TotalDataDB),
}

/// Different kinds of sensor data in the database.
#[derive(Debug, Clone, Copy, PartialEq, Eq)]
pub enum DataKindDB {
    CPU,
    GPU,
    Ram,
    Disk,
    Network,
    Process,
    Total,
}

/// Sensors data for the database.
#[derive(Debug)]
pub struct EventDB {
    time: SystemTime,
    data: Vec<DataDB>,
}

impl EventDB {
    pub closed spec fn spec_time(&self) -> SystemTime {
        self.time
    }

    pub closed spec fn spec_data(&self) -> Seq<DataDB> {
        self.data@
    }

    /// Creates an event with the given timestamp and data.
    pub fn new(time: SystemTime, data: Vec<DataDB>) -> (r: Self)
        ensures
            r.spec_time() == time,
            r.spec_data() == data@,
    {
        EventDB { time, data }
    }

    /// Returns the event timestamp.
    pub fn time(&self) -> (t: SystemTime)
        ensures
            t == self.spec_time(),
    {
        self.time
    }

    /// Returns the list of readings.
    pub fn data(&self) -> (d: &Vec<DataDB>)
        ensures
            d@ == self.spec_data(),
    {
        &self.data
    }

    /// Appends a reading to this event.
    pub fn push_data(&mut self, data: DataDB)
        ensures
            final(self).spec_time() == old(self).spec_time(),
            final(self).spec_data() == old(self).spec_data().push(data),
    {
        self.data.push(data);
    }
}

/// The view of a list of pairs of static strings.
pub open spec fn pair_views(v: Seq<(&'static str, &'static str)>) -> Seq<(Seq<char>, Seq<char>)> {
    v.map_values(|p: (&'static str, &'static str)| (p.0@, p.1@))
}

/// `items` joined by `sep`.
pub open spec fn joined(items: Seq<Seq<char>>, sep: Seq<char>) -> Seq<char>
    decreases items.len(),
{
    if items.len() == 0 {
        seq![]
    } else if items.len() == 1 {
        items[0]
    } else {
        joined(items.drop_last(), sep) + sep + items.last()
    }
}

/// `INSERT` statement of a table with these columns: the timestamp reference first,
/// then one numbered parameter per column.
pub open spec fn insert_sql_text(table: Seq<char>, cols: Seq<(Seq<char>, Seq<char>)>) -> Seq<char> {
    "INSERT INTO "@ + table + " ("@ + "timestamp_id, "@ + joined(
        cols.map_values(|c: (Seq<char>, Seq<char>)| c.0),
        ", "@,
    ) + ") VALUES ("@ + joined(
        Seq::new((cols.len() + 1) as nat, |i: int| seq!['?'] + decimal((i + 1) as nat)),
        ", "@,
    ) + ")"@
}

/// `CREATE TABLE` statement of a table with these columns, and the index on its
/// timestamp reference.
pub open spec fn create_table_sql_text(table: Seq<char>, cols: Seq<(Seq<char>, Seq<char>)>) -> Seq<char> {
    "CREATE TABLE IF NOT EXISTS "@ + table + " ("@ + joined(
        seq![
            "id INTEGER PRIMARY KEY"@,
            "timestamp_id INTEGER NOT NULL REFERENCES timestamp(id) ON DELETE CASCADE"@,
        ] + cols.map_values(|c: (Seq<char>, Seq<char>)| c.0 + seq![' '] + c.1),
        ", "@,
    ) + ");CREATE INDEX IF NOT EXISTS idx_"@ + table + "_timestamp_id ON "@ + table
        + "(timestamp_id)"@
}

/// The column list averaging every column read under `prefix`.
pub open spec fn avg_columns_sql_text(prefix: Seq<char>, cols: Seq<(Seq<char>, Seq<char>)>) -> Seq<char> {
    joined(
        cols.map_values(
            |c: (Seq<char>, Seq<char>)| "AVG("@ + prefix + c.0 + ") AS "@ + c.0,
        ),
        ", "@,
    )
}

/// Appends `items` joined by `sep`.
pub fn push_joined(s: &mut String, items: &Vec<String>, sep: &str)
    ensures
        final(s)@ == old(s)@ + joined(items@.map_values(|x: String| x@), sep@),
{
    let ghost views = items@.map_values(|x: String| x@);
    let ghost start = s@;
    let mut i: usize = 0;
    while i < items.len()
        invariant
            i <= items@.len(),
            views == items@.map_values(|x: String| x@),
            s@ == start + joined(views.take(i as int), sep@),
        decreases items@.len() - i,
    {
        if i > 0 {
            s.append(sep);
        }
        s.append(items[i].as_str());
        proof {
            let t = views.take(i + 1);
            assert(t.drop_last() =~= views.take(i as int));
            if i == 0 {
                assert(t.len() == 1);
                assert(joined(t, sep@) == t[0]);
                assert(views.take(0).len() == 0);
                assert(s@ =~= start + joined(t, sep@));
            } else {
                assert(s@ =~= start + joined(t, sep@));
            }
        }
        i = i + 1;
    }
    proof {
        assert(views.take(items@.len() as int) =~= views);
    }
}

/// Maps a data type to its SQLite table.
pub trait DatabaseEntry {
    spec fn spec_table_name() -> Seq<char>;

    spec fn spec_columns() -> Seq<(Seq<char>, Seq<char>)>;

    /// The name of the component this data comes from.
    fn generic_name() -> &'static str;

    /// The name of the table.
    fn table_name_static() -> (r: &'static str)
        ensures
            r@ == Self::spec_table_name(),
    ;

    /// The table's columns besides its identifier and timestamp reference, each with
    /// its SQL type.
    fn columns_static() -> (r: Vec<(&'static str, &'static str)>)
        ensures
            pair_views(r@) == Self::spec_columns(),
            r@.len() < 100,
    ;

    /// The `INSERT` statement of the table.
    fn insert_sql() -> (r: String)
        ensures
            r@ == insert_sql_text(Self::spec_table_name(), Self::spec_columns()),
    {
        let cols = Self::columns_static();
        let mut names: Vec<String> = Vec::new();
        let mut params: Vec<String> = Vec::new();
        let mut i: usize = 0;
        while i < cols.len()
            invariant
                i <= cols@.len(),
                pair_views(cols@) == Self::spec_columns(),
                names@.map_values(|x: String| x@) == Self::spec_columns().take(i as int).map_values(
                    |c: (Seq<char>, Seq<char>)| c.0,
                ),
            decreases cols@.len() - i,
        {
            let ghost before = names@;
            let name = String::from_str(cols[i].0);
            names.push(name);
            proof {
                let f = |c: (Seq<char>, Seq<char>)| c.0;
                let g = |x: String| x@;
                let want = Self::spec_columns().take(i + 1).map_values(f);
                assert(pair_views(cols@)[i as int] == (cols@[i as int].0@, cols@[i as int].1@));
                assert(Self::spec_columns().take(i + 1) =~= Self::spec_columns().take(i as int).push(
                    Self::spec_columns()[i as int],
                ));
                assert(want =~= Self::spec_columns().take(i as int).map_values(f).push(
                    cols@[i as int].0@,
                ));
                assert(names@ == before.push(name));
                assert(names@.map_values(g) =~= before.map_values(g).push(name@));
            }
            i = i + 1;
        }
        proof {
            assert(Self::spec_columns().take(cols@.len() as int) =~= Self::spec_columns());
        }
        let mut k: usize = 0;
        while k <= cols.len()
            invariant
                k <= cols@.len() + 1,
                cols@.len() < 100,
                pair_views(cols@) == Self::spec_columns(),
                params@.map_values(|x: String| x@) == Seq::new(
                    k as nat,
                    |j: int| seq!['?'] + decimal((j + 1) as nat),
                ),
            decreases cols@.len() + 1 - k,
        {
            let ghost before = params@;
            let mut p = String::from_str("?");
            push_decimal(&mut p, (k + 1) as u64);
            params.push(p);
            proof {
                reveal_strlit("?");
                let g = |x: String| x@;
                let h = |j: int| seq!['?'] + decimal((j + 1) as nat);
                assert(params@ == before.push(p));
                assert(p@ == h(k as int));
                assert(params@.map_values(g) =~= before.map_values(g).push(p@));
                assert(params@.map_values(g) =~= Seq::new((k + 1) as nat, h));
            }
            k = k + 1;
        }
        let mut sql = String::from_str("INSERT INTO ");
        sql.append(Self::table_name_static());
        sql.append(" (");
        sql.append("timestamp_id, ");
        push_joined(&mut sql, &names, ", ");
        sql.append(") VALUES (");
        push_joined(&mut sql, &params, ", ");
        sql.append(")");
        proof {
            reveal_strlit("INSERT INTO ");
            reveal_strlit(" (");
            reveal_strlit("timestamp_id, ");
            reveal_strlit(", ");
            reveal_strlit(") VALUES (");
            reveal_strlit(")");
            assert(pair_views(cols@).len() == cols@.len());
            assert(sql@ =~= insert_sql_text(Self::spec_table_name(), Self::spec_columns()));
        }
        sql
    }

    /// The `CREATE TABLE` statement of the table, with the index on its timestamp
    /// reference.
    fn create_table_sql() -> (r: String)
        ensures
            r@ == create_table_sql_text(Self::spec_table_name(), Self::spec_columns()),
    {
        let cols = Self::columns_static();
        let mut defs: Vec<String> = Vec::new();
        defs.push(String::from_str("id INTEGER PRIMARY KEY"));
        defs.push(
            String::from_str("timestamp_id INTEGER NOT NULL REFERENCES timestamp(id) ON DELETE CASCADE"),
        );
        let ghost head = seq![
            "id INTEGER PRIMARY KEY"@,
            "timestamp_id INTEGER NOT NULL REFERENCES timestamp(id) ON DELETE CASCADE"@,
        ];
        let ghost f = |c: (Seq<char>, Seq<char>)| c.0 + seq![' '] + c.1;
        let ghost g = |x: String| x@;
        proof {
            assert(defs@.map_values(g) =~= head + Self::spec_columns().take(0).map_values(f));
        }
        let mut i: usize = 0;
        while i < cols.len()
            invariant
                i <= cols@.len(),
                pair_views(cols@) == Self::spec_columns(),
                g == (|x: String| x@),
                f == (|c: (Seq<char>, Seq<char>)| c.0 + seq![' '] + c.1),
                defs@.map_values(g) == head + Self::spec_columns().take(i as int).map_values(f),
            decreases cols@.len() - i,
        {
            let ghost before = defs@;
            let mut d = String::from_str(cols[i].0);
            d.append(" ");
            d.append(cols[i].1);
            defs.push(d);
            proof {
                reveal_strlit(" ");
                assert(pair_views(cols@)[i as int] == (cols@[i as int].0@, cols@[i as int].1@));
                assert(d@ == f(Self::spec_columns()[i as int]));
                assert(Self::spec_columns().take(i + 1) =~= Self::spec_columns().take(i as int).push(
                    Self::spec_columns()[i as int],
                ));
                assert(defs@ == before.push(d));
                assert(defs@.map_values(g) =~= before.map_values(g).push(d@));
                assert(defs@.map_values(g) =~= head + Self::spec_columns().take(i + 1).map_values(f));
            }
            i = i + 1;
        }
        proof {
            assert(Self::spec_columns().take(cols@.len() as int) =~= Self::spec_columns());
        }
        let table_name = Self::table_name_static();
        let mut sql = String::from_str("CREATE TABLE IF NOT EXISTS ");
        sql.append(table_name);
        sql.append(" (");
        push_joined(&mut sql, &defs, ", ");
        sql.append(");CREATE INDEX IF NOT EXISTS idx_");
        sql.append(table_name);
        sql.append("_timestamp_id ON ");
        sql.append(table_name);
        sql.append("(timestamp_id)");
        proof {
            reveal_strlit("CREATE TABLE IF NOT EXISTS ");
            reveal_strlit(" (");
            reveal_strlit(", ");
            reveal_strlit(");CREATE INDEX IF NOT EXISTS idx_");
            reveal_strlit("_timestamp_id ON ");
            reveal_strlit("(timestamp_id)");
            assert(sql@ =~= create_table_sql_text(Self::spec_table_name(), Self::spec_columns()));
        }
        sql
    }

    /// The list of averaged columns read under `prefix`, each named after its column.
    fn avg_columns_sql(prefix: &str) -> (r: String)
        ensures
            r@ == avg_columns_sql_text(prefix@, Self::spec_columns()),
    {
        let cols = Self::columns_static();
        let mut parts: Vec<String> = Vec::new();
        let ghost f = |c: (Seq<char>, Seq<char>)| "AVG("@ + prefix@ + c.0 + ") AS "@ + c.0;
        let ghost g = |x: String| x@;
        let mut i: usize = 0;
        while i < cols.len()
            invariant
                i <= cols@.len(),
                pair_views(cols@) == Self::spec_columns(),
                g == (|x: String| x@),
                f == (|c: (Seq<char>, Seq<char>)| "AVG("@ + prefix@ + c.0 + ") AS "@ + c.0),
                parts@.map_values(g) == Self::spec_columns().take(i as int).map_values(f),
            decreases cols@.len() - i,
        {
            let ghost before = parts@;
            let mut p = String::from_str("AVG(");
            p.append(prefix);
            p.append(cols[i].0);
            p.append(") AS ");
            p.append(cols[i].0);
            parts.push(p);
            proof {
                assert(pair_views(cols@)[i as int] == (cols@[i as int].0@, cols@[i as int].1@));
                assert(p@ =~= f(Self::spec_columns()[i as int]));
                assert(Self::spec_columns().take(i + 1) =~= Self::spec_columns().take(i as int).push(
                    Self::spec_columns()[i as int],
                ));
                assert(parts@ == before.push(p));
                assert(parts@.map_values(g) =~= before.map_values(g).push(p@));
                assert(parts@.map_values(g) =~= Self::spec_columns().take(i + 1).map_values(f));
            }
            i = i + 1;
        }
        proof {
            assert(Self::spec_columns().take(cols@.len() as int) =~= Self::spec_columns());
        }
        let mut sql = String::new();
        push_joined(&mut sql, &parts, ", ");
        proof {
            reveal_strlit(", ");
            assert(sql@ =~= avg_columns_sql_text(prefix@, Self::spec_columns()));
        }
        sql
    }
}

impl DatabaseEntry for CPUData {
    open spec fn spec_table_name() -> Seq<char> {
        "cpu_data"@
    }

    open spec fn spec_columns() -> Seq<(Seq<char>, Seq<char>)> {
        seq![("total_consumption"@, "REAL"@), ("pp0_consumption"@, "REAL"@), ("pp1_consumption"@, "REAL"@), ("dram_consumption"@, "REAL"@), ("usage_percent"@, "REAL"@)]
    }

    fn generic_name() -> (r: &'static str)
        ensures
            r@ == "CPU"@,
    {
        "CPU"
    }

    fn table_name_static() -> (r: &'static str) {
        "cpu_data"
    }

    fn columns_static() -> (r: Vec<(&'static str, &'static str)>) {
        let r: Vec<(&'static str, &'static str)> = vec![("total_consumption", "REAL"), ("pp0_consumption", "REAL"), ("pp1_consumption", "REAL"), ("dram_consumption", "REAL"), ("usage_percent", "REAL")];
        proof {
            assert(pair_views(r@) =~= Self::spec_columns());
        }
        r
    }
}

impl DatabaseEntry for GPUData {
    open spec fn spec_table_name() -> Seq<char> {
        "gpu_data"@
    }

    open spec fn spec_columns() -> Seq<(Seq<char>, Seq<char>)> {
        seq![("total_consumption"@, "REAL"@), ("usage_percent"@, "REAL"@), ("vram_usage_percent"@, "REAL"@)]
    }

    fn generic_name() -> (r: &'static str)
        ensures
            r@ == "GPU"@,
    {
        "GPU"
    }

    fn table_name_static() -> (r: &'static str) {
        "gpu_data"
    }

    fn columns_static() -> (r: Vec<(&'static str, &'static str)>) {
        let r: Vec<(&'static str, &'static str)> = vec![("total_consumption", "REAL"), ("usage_percent", "REAL"), ("vram_usage_percent", "REAL")];
        proof {
            assert(pair_views(r@) =~= Self::spec_columns());
        }
        r
    }
}

impl DatabaseEntry for DiskData {
    open spec fn spec_table_name() -> Seq<char> {
        "disk_data"@
    }

    open spec fn spec_columns() -> Seq<(Seq<char>, Seq<char>)> {
        seq![("total_consumption"@, "REAL"@), ("read_usage_mb_s"@, "REAL"@), ("write_usage_mb_s"@, "REAL"@)]
    }

    fn generic_name() -> (r: &'static str)
        ensures
            r@ == "Disk"@,
    {
        "Disk"
    }

    fn table_name_static() -> (r: &'static str) {
        "disk_data"
    }

    fn columns_static() -> (r: Vec<(&'static str, &'static str)>) {
        let r: Vec<(&'static str, &'static str)> = vec![("total_consumption", "REAL"), ("read_usage_mb_s", "REAL"), ("write_usage_mb_s", "REAL")];
        proof {
            assert(pair_views(r@) =~= Self::spec_columns());
        }
        r
    }
}

impl DatabaseEntry for RamData {
    open spec fn spec_table_name() -> Seq<char> {
        "ram_data"@
    }

    open spec fn spec_columns() -> Seq<(Seq<char>, Seq<char>)> {
        seq![("total_consumption"@, "REAL"@), ("usage_percent"@, "REAL"@)]
    }

    fn generic_name() -> (r: &'static str)
        ensures
            r@ == "RAM"@,
    {
        "RAM"
    }

    fn table_name_static() -> (r: &'static str) {
        "ram_data"
    }

    fn columns_static() -> (r: Vec<(&'static str, &'static str)>) {
        let r: Vec<(&'static str, &'static str)> = vec![("total_consumption", "REAL"), ("usage_percent", "REAL")];
        proof {
            assert(pair_views(r@) =~= Self::spec_columns());
        }
        r
    }
}

impl DatabaseEntry for NetworkData {
    open spec fn spec_table_name() -> Seq<char> {
        "network_data"@
    }

    open spec fn spec_columns() -> Seq<(Seq<char>, Seq<char>)> {
        seq![("total_consumption"@, "REAL"@), ("download_speed_mb_s"@, "REAL"@), ("upload_speed_mb_s"@, "REAL"@)]
    }

    fn generic_name() -> (r: &'static str)
        ensures
            r@ == "Network"@,
    {
        "Network"
    }

    fn table_name_static() -> (r: &'static str) {
        "network_data"
    }

    fn columns_static() -> (r: Vec<(&'static str, &'static str)>) {
        let r: Vec<(&'static str, &'static str)> = vec![("total_consumption", "REAL"), ("download_speed_mb_s", "REAL"), ("upload_speed_mb_s", "REAL")];
        proof {
            assert(pair_views(r@) =~= Self::spec_columns());
        }
        r
    }
}

impl DatabaseEntry for TotalDataDB {
    open spec fn spec_table_name() -> Seq<char> {
        "total_data"@
    }

    open spec fn spec_columns() -> Seq<(Seq<char>, Seq<char>)> {
        seq![("total_consumption"@, "REAL"@), ("period_type"@, "TEXT NOT NULL"@)]
    }

    fn generic_name() -> (r: &'static str)
        ensures
            r@ == "Total"@,
    {
        "Total"
    }

    fn table_name_static() -> (r: &'static str) {
        "total_data"
    }

    fn columns_static() -> (r: Vec<(&'static str, &'static str)>) {
        let r: Vec<(&'static str, &'static str)> = vec![("total_consumption", "REAL"), ("period_type", "TEXT NOT NULL")];
        proof {
            assert(pair_views(r@) =~= Self::spec_columns());
        }
        r
    }
}

impl DatabaseEntry for ProcessDataDB {
    open spec fn spec_table_name() -> Seq<char> {
        "process_data"@
    }

    open spec fn spec_columns() -> Seq<(Seq<char>, Seq<char>)> {
        seq![("app_name"@, "TEXT NOT NULL"@), ("process_exe_path"@, "TEXT"@), ("process_consumption"@, "REAL"@), ("process_cpu_usage"@, "REAL"@), ("process_gpu_usage"@, "REAL"@), ("process_mem_usage"@, "REAL"@), ("read_bytes_per_sec"@, "REAL"@), ("written_bytes_per_sec"@, "REAL"@), ("subprocess_count"@, "INTEGER"@)]
    }

    fn generic_name() -> (r: &'static str)
        ensures
            r@ == "Processes"@,
    {
        "Processes"
    }

    fn table_name_static() -> (r: &'static str) {
        "process_data"
    }

    fn columns_static() -> (r: Vec<(&'static str, &'static str)>) {
        let r: Vec<(&'static str, &'static str)> = vec![("app_name", "TEXT NOT NULL"), ("process_exe_path", "TEXT"), ("process_consumption", "REAL"), ("process_cpu_usage", "REAL"), ("process_gpu_usage", "REAL"), ("process_mem_usage", "REAL"), ("read_bytes_per_sec", "REAL"), ("written_bytes_per_sec", "REAL"), ("subprocess_count", "INTEGER")];
        proof {
            assert(pair_views(r@) =~= Self::spec_columns());
        }
        r
    }
}

impl DatabaseEntry for AllTimeData {
    open spec fn spec_table_name() -> Seq<char> {
        "all_time_data"@
    }

    open spec fn spec_columns() -> Seq<(Seq<char>, Seq<char>)> {
        seq![]
    }

    fn generic_name() -> (r: &'static str)
        ensures
            r@ == "AllTime"@,
    {
        "AllTime"
    }

    fn table_name_static() -> (r: &'static str) {
        "all_time_data"
    }

    fn columns_static() -> (r: Vec<(&'static str, &'static str)>) {
        let r: Vec<(&'static str, &'static str)> = Vec::new();
        proof {
            assert(pair_views(r@) =~= Self::spec_columns());
        }
        r
    }
}

/// The names of a table's columns, in order.
pub open spec fn column_names(cols: Seq<(Seq<char>, Seq<char>)>) -> Seq<Seq<char>> {
    cols.map_values(|c: (Seq<char>, Seq<char>)| c.0)
}

/// Each table lists its columns in the order in which a reading's values are bound
/// after the timestamp reference: a disk row binds the total, then the bytes read, then
/// the bytes written; a network row the total, then the bytes downloaded, then those
/// uploaded; a CPU row the package, core, uncore and DRAM energies, then the usage.
pub proof fn law_columns_follow_the_readings()
    ensures
        column_names(<DiskData as DatabaseEntry>::spec_columns()) == seq![
            "total_consumption"@,
            "read_usage_mb_s"@,
            "write_usage_mb_s"@,
        ],
        column_names(<NetworkData as DatabaseEntry>::spec_columns()) == seq![
            "total_consumption"@,
            "download_speed_mb_s"@,
            "upload_speed_mb_s"@,
        ],
        column_names(<CPUData as DatabaseEntry>::spec_columns()) == seq![
            "total_consumption"@,
            "pp0_consumption"@,
            "pp1_consumption"@,
            "dram_consumption"@,
            "usage_percent"@,
        ],
        column_names(<GPUData as DatabaseEntry>::spec_columns()) == seq![
            "total_consumption"@,
            "usage_percent"@,
            "vram_usage_percent"@,
        ],
        column_names(<RamData as DatabaseEntry>::spec_columns()) == seq!["total_consumption"@, "usage_percent"@],
        column_names(<ProcessDataDB as DatabaseEntry>::spec_columns()) == seq![
            "app_name"@,
            "process_exe_path"@,
            "process_consumption"@,
            "process_cpu_usage"@,
            "process_gpu_usage"@,
            "process_mem_usage"@,
            "read_bytes_per_sec"@,
            "written_bytes_per_sec"@,
            "subprocess_count"@,
        ],
{
    assert(column_names(<DiskData as DatabaseEntry>::spec_columns()) =~= seq![
        "total_consumption"@,
        "read_usage_mb_s"@,
        "write_usage_mb_s"@,
    ]);
    assert(column_names(<NetworkData as DatabaseEntry>::spec_columns()) =~= seq![
        "total_consumption"@,
        "download_speed_mb_s"@,
        "upload_speed_mb_s"@,
    ]);
    assert(column_names(<CPUData as DatabaseEntry>::spec_columns()) =~= seq![
        "total_consumption"@,
        "pp0_consumption"@,
        "pp1_consumption"@,
        "dram_consumption"@,
        "usage_percent"@,
    ]);
    assert(column_names(<GPUData as DatabaseEntry>::spec_columns()) =~= seq![
        "total_consumption"@,
        "usage_percent"@,
        "vram_usage_percent"@,
    ]);
    assert(column_names(<RamData as DatabaseEntry>::spec_columns()) =~= seq!["total_consumption"@, "usage_percent"@]);
    assert(column_names(<ProcessDataDB as DatabaseEntry>::spec_columns()) =~= seq![
        "app_name"@,
        "process_exe_path"@,
        "process_consumption"@,
        "process_cpu_usage"@,
        "process_gpu_usage"@,
        "process_mem_usage"@,
        "read_bytes_per_sec"@,
        "written_bytes_per_sec"@,
        "subprocess_count"@,
    ]);
}

impl Default for CPUData {
    fn default() -> (r: Self)
        ensures
            r == (CPUData {
                total_energy: Some(EnergyUj(0)),
                pp0_energy: Some(EnergyUj(0)),
                pp1_energy: Some(EnergyUj(0)),
                dram_energy: Some(EnergyUj(0)),
                usage_percent: Some(Percent(0)),
            }),
    {
        CPUData {
            total_energy: Some(EnergyUj::from_u64(0)),
            pp0_energy: Some(EnergyUj::from_u64(0)),
            pp1_energy: Some(EnergyUj::from_u64(0)),
            dram_energy: Some(EnergyUj::from_u64(0)),
            usage_percent: Some(Percent(0)),
        }
    }
}

impl Default for GPUData {
    fn default() -> (r: Self)
        ensures
            r == (GPUData {
                total_energy: Some(EnergyUj(0)),
                usage_percent: Some(Percent(0)),
                vram_usage_percent: Some(Percent(0)),
            }),
    {
        GPUData {
            total_energy: Some(EnergyUj::from_u64(0)),
            usage_percent: Some(Percent(0)),
            vram_usage_percent: Some(Percent(0)),
        }
    }
}

impl Default for RamData {
    fn default() -> (r: Self)
        ensures
            r == (RamData { total_energy: Some(EnergyUj(0)), usage_percent: Some(Percent(0)) }),
    {
        RamData { total_energy: Some(EnergyUj::from_u64(0)), usage_percent: Some(Percent(0)) }
    }
}

impl Default for DiskData {
    fn default() -> (r: Self)
        ensures
            r == (DiskData {
                total_energy: Some(EnergyUj(0)),
                read_bytes: Byte(0),
                written_bytes: Byte(0),
            }),
    {
        DiskData {
            total_energy: Some(EnergyUj::from_u64(0)),
            read_bytes: Byte::from(0),
            written_bytes: Byte::from(0),
        }
    }
}

impl Default for NetworkData {
    fn default() -> (r: Self)
        ensures
            r == (NetworkData {
                total_energy: Some(EnergyUj(0)),
                downloaded_bytes: Byte(0),
                uploaded_bytes: Byte(0),
            }),
    {
        NetworkData {
            total_energy: Some(EnergyUj::from_u64(0)),
            downloaded_bytes: Byte::from(0),
            uploaded_bytes: Byte::from(0),
        }
    }
}

impl TotalDataDB {
    /// The displayed text: `"Total Energy: <energy>\n"`.
    pub fn to_text(&self) -> (s: String)
        ensures
            s@ == "Total Energy: "@ + decimal(self.total_energy.0 as nat) + " µJ"@ + seq!['\n'],
    {
        let mut s = String::from_str("Total Energy: ");
        let e = self.total_energy.to_text();
        s.append(e.as_str());
        s.append("\n");
        proof {
            reveal_strlit("\n");
            assert(s@ =~= "Total Energy: "@ + decimal(self.total_energy.0 as nat) + " µJ"@ + seq!['\n']);
        }
        s
    }
}

impl Default for TotalDataDB {
    fn default() -> (r: Self)
        ensures
            r.total_energy == EnergyUj(0),
    {
        TotalDataDB { total_energy: EnergyUj::from_u64(0) }
    }
}

impl Default for ProcessDataDB {
    fn default() -> (r: Self)
        ensures
            r.app_name@ == Seq::<char>::empty(),
            r.process_exe_path is None,
            r.process_energy == EnergyUj(0),
            r.process_cpu_usage == Percent(0),
            r.process_gpu_usage is None,
            r.process_mem_usage == Percent(0),
            r.read_bytes == Byte(0),
            r.written_bytes == Byte(0),
            r.subprocess_count == 0,
            r.icon is None,
    {
        ProcessDataDB {
            app_name: String::new(),
            process_exe_path: None,
            process_energy: EnergyUj::from_u64(0),
            process_cpu_usage: Percent(0),
            process_gpu_usage: None,
            process_mem_usage: Percent(0),
            read_bytes: Byte::from(0),
            written_bytes: Byte::from(0),
            subprocess_count: 0,
            icon: None,
        }
    }
}

impl CPUData {
    /// The reading that stands for no activity: the zero-filled default.
    pub fn zero() -> (d: DataDB)
        ensures
            d matches DataDB::Sensor(SensorData::CPU(x)) && x == (CPUData {
                total_energy: Some(EnergyUj(0)),
                pp0_energy: Some(EnergyUj(0)),
                pp1_energy: Some(EnergyUj(0)),
                dram_energy: Some(EnergyUj(0)),
                usage_percent: Some(Percent(0)),
            }),
    {
        DataDB::Sensor(SensorData::CPU(CPUData::default()))
    }
}

impl GPUData {
    /// The reading that stands for no activity: the zero-filled default.
    pub fn zero() -> (d: DataDB)
        ensures
            d matches DataDB::Sensor(SensorData::GPU(x)) && x == (GPUData {
                total_energy: Some(EnergyUj(0)),
                usage_percent: Some(Percent(0)),
                vram_usage_percent: Some(Percent(0)),
            }),
    {
        DataDB::Sensor(SensorData::GPU(GPUData::default()))
    }
}

impl RamData {
    /// The reading that stands for no activity: the zero-filled default.
    pub fn zero() -> (d: DataDB)
        ensures
            d matches DataDB::Sensor(SensorData::Ram(x)) && x == (RamData {
                total_energy: Some(EnergyUj(0)),
                usage_percent: Some(Percent(0)),
            }),
    {
        DataDB::Sensor(SensorData::Ram(RamData::default()))
    }
}

impl DiskData {
    /// The reading that stands for no activity: the zero-filled default.
    pub fn zero() -> (d: DataDB)
        ensures
            d matches DataDB::Sensor(SensorData::Disk(x)) && x == (DiskData {
                total_energy: Some(EnergyUj(0)),
                read_bytes: Byte(0),
                written_bytes: Byte(0),
            }),
    {
        DataDB::Sensor(SensorData::Disk(DiskData::default()))
    }
}

impl NetworkData {
    /// The reading that stands for no activity: the zero-filled default.
    pub fn zero() -> (d: DataDB)
        ensures
            d matches DataDB::Sensor(SensorData::Network(x)) && x == (NetworkData {
                total_energy: Some(EnergyUj(0)),
                downloaded_bytes: Byte(0),
                uploaded_bytes: Byte(0),
            }),
    {
        DataDB::Sensor(SensorData::Network(NetworkData::default()))
    }
}

impl TotalDataDB {
    /// The reading that stands for no activity: a zero total.
    pub fn zero() -> (d: DataDB)
        ensures
            d matches DataDB::Total(x) && x.total_energy == EnergyUj(0),
    {
        DataDB::Total(TotalDataDB::default())
    }
}

impl ProcessDataDB {
    /// The reading that stands for no activity: no process at all.
    pub fn zero() -> (d: DataDB)
        ensures
            d matches DataDB::Process(v) && v@.len() == 0,
    {
        DataDB::Process(Vec::new())
    }
}

/// The table name of a sensor reading's kind.
pub open spec fn sensor_table_name(d: SensorData) -> Seq<char> {
    match d {
        SensorData::CPU(_) => "cpu_data"@,
        SensorData::GPU(_) => "gpu_data"@,
        SensorData::Ram(_) => "ram_data"@,
        SensorData::Disk(_) => "disk_data"@,
        SensorData::Network(_) => "network_data"@,
        SensorData::Processes(_) => "process_data"@,
    }
}

/// The database table of a reading.
pub open spec fn data_table_name(d: DataDB) -> Seq<char> {
    match d {
        DataDB::Sensor(s) => sensor_table_name(s),
        DataDB::Process(_) => "process_data"@,
        DataDB::Total(_) => "total_data"@,
    }
}

/// The total energy of a database reading, if it has one.
pub open spec fn data_energy(d: DataDB) -> Option<EnergyUj> {
    match d {
        DataDB::Sensor(s) => energy_of(s),
        DataDB::Total(t) => Some(t.total_energy),
        DataDB::Process(_) => None,
    }
}

/// The kind of secondary metric a reading carries.
pub open spec fn secondary_metric_of(d: DataDB) -> Option<MetricKindDB> {
    match d {
        DataDB::Sensor(SensorData::CPU(_)) => Some(MetricKindDB::Usage),
        DataDB::Sensor(SensorData::GPU(_)) => Some(MetricKindDB::Usage),
        DataDB::Sensor(SensorData::Ram(_)) => Some(MetricKindDB::Usage),
        DataDB::Sensor(SensorData::Disk(_)) => Some(MetricKindDB::Speed),
        DataDB::Sensor(SensorData::Network(_)) => Some(MetricKindDB::Speed),
        _ => None,
    }
}

/// A secondary measurement: a usage percentage, or a byte count shown as megabytes.
#[derive(Debug, Clone, Copy, PartialEq, Eq)]
pub enum MetricValue {
    Percent(Percent),
    Bytes(Byte),
}

/// Named optional value of a secondary metric.
#[derive(Debug, Clone, Copy)]
pub struct LabeledValue {
    pub label: &'static str,
    pub value: Option<MetricValue>,
}

impl LabeledValue {
    fn from_percent(percent: Option<Percent>, label: &'static str) -> (r: Self)
        ensures
            r.label == label,
            r.value == (match percent {
                Some(p) => Some(MetricValue::Percent(p)),
                None => None,
            }),
    {
        Self {
            label,
            value: match percent {
                Some(p) => Some(MetricValue::Percent(p)),
                None => None,
            },
        }
    }

    fn from_usage_percent(percent: Option<Percent>) -> (r: Self)
        ensures
            r.label@ == "Usage"@,
            r.value == (match percent {
                Some(p) => Some(MetricValue::Percent(p)),
                None => None,
            }),
    {
        Self::from_percent(percent, "Usage")
    }

    fn from_bytes(bytes: Byte, label: &'static str) -> (r: Self)
        ensures
            r.label == label,
            r.value == Some(MetricValue::Bytes(bytes)),
    {
        Self { label, value: Some(MetricValue::Bytes(bytes)) }
    }
}

/// Secondary metric values with their kind.
#[derive(Debug, Clone)]
pub struct SecondaryValues {
    pub metric_kind: MetricKindDB,
    pub values: Vec<LabeledValue>,
}

impl SecondaryValues {
    fn from_labeled_values(metric_kind: MetricKindDB, values: Vec<LabeledValue>) -> (r: Self)
        ensures
            r.metric_kind == metric_kind,
            r.values@ == values@,
    {
        Self { metric_kind, values }
    }

    /// Returns the list of labeled values.
    pub fn values(&self) -> (v: &Vec<LabeledValue>)
        ensures
            v@ == self.values@,
    {
        &self.values
    }

    /// Returns the metric type of these secondary values.
    pub fn metric_type(&self) -> (k: MetricKindDB)
        ensures
            k == self.metric_kind,
    {
        self.metric_kind
    }
}

/// A labelled value as `(label, value)`.
pub open spec fn labeled(v: LabeledValue) -> (Seq<char>, Option<MetricValue>) {
    (v.label@, v.value)
}

/// The usage value of a percentage reading.
pub open spec fn usage_value(p: Option<Percent>) -> Option<MetricValue> {
    match p {
        Some(x) => Some(MetricValue::Percent(x)),
        None => None,
    }
}

/// The secondary values of a reading, as `(label, value)` pairs.
pub open spec fn secondary_values_of(d: DataDB) -> Option<Seq<(Seq<char>, Option<MetricValue>)>> {
    match d {
        DataDB::Sensor(SensorData::CPU(x)) => Some(seq![("Usage"@, usage_value(x.usage_percent))]),
        DataDB::Sensor(SensorData::GPU(x)) => Some(seq![("Usage"@, usage_value(x.usage_percent))]),
        DataDB::Sensor(SensorData::Ram(x)) => Some(seq![("Usage"@, usage_value(x.usage_percent))]),
        DataDB::Sensor(SensorData::Disk(x)) => Some(
            seq![
                ("Read"@, Some(MetricValue::Bytes(x.read_bytes))),
                ("Write"@, Some(MetricValue::Bytes(x.written_bytes))),
            ],
        ),
        DataDB::Sensor(SensorData::Network(x)) => Some(
            seq![
                ("Download"@, Some(MetricValue::Bytes(x.downloaded_bytes))),
                ("Upload"@, Some(MetricValue::Bytes(x.uploaded_bytes))),
            ],
        ),
        _ => None,
    }
}

/// Whether the value labelled `label` in `vals` is `v`, wherever that label occurs.
pub open spec fn labelled_as(vals: Seq<(Seq<char>, Option<MetricValue>)>, label: Seq<char>, v: Option<MetricValue>) -> bool {
    (exists|i: int| 0 <= i < vals.len() && vals[i].0 == label) && forall|i: int|
        0 <= i < vals.len() && #[trigger] vals[i].0 == label ==> vals[i].1 == v
}

/// Each secondary value carries the field its label names: a network reading's
/// `Download` is its downloaded bytes and its `Upload` its uploaded bytes, a disk
/// reading's `Read` its bytes read and `Write` its bytes written, and the `Usage` of a
/// CPU, GPU or RAM reading its usage percentage; throughputs are speeds and usages
/// usages.
pub proof fn law_secondary_labels_carry_their_fields(d: DataDB)
    ensures
        d matches DataDB::Sensor(SensorData::Network(x)) ==> secondary_values_of(d) matches Some(vals)
            && vals.len() == 2 && labelled_as(vals, "Download"@, Some(MetricValue::Bytes(x.downloaded_bytes)))
            && labelled_as(vals, "Upload"@, Some(MetricValue::Bytes(x.uploaded_bytes)))
            && secondary_metric_of(d) == Some(MetricKindDB::Speed),
        d matches DataDB::Sensor(SensorData::Disk(x)) ==> secondary_values_of(d) matches Some(vals)
            && vals.len() == 2 && labelled_as(vals, "Read"@, Some(MetricValue::Bytes(x.read_bytes)))
            && labelled_as(vals, "Write"@, Some(MetricValue::Bytes(x.written_bytes)))
            && secondary_metric_of(d) == Some(MetricKindDB::Speed),
        d matches DataDB::Sensor(SensorData::CPU(x)) ==> secondary_values_of(d) matches Some(vals)
            && vals.len() == 1 && labelled_as(vals, "Usage"@, usage_value(x.usage_percent))
            && secondary_metric_of(d) == Some(MetricKindDB::Usage),
        d matches DataDB::Sensor(SensorData::GPU(x)) ==> secondary_values_of(d) matches Some(vals)
            && vals.len() == 1 && labelled_as(vals, "Usage"@, usage_value(x.usage_percent))
            && secondary_metric_of(d) == Some(MetricKindDB::Usage),
        d matches DataDB::Sensor(SensorData::Ram(x)) ==> secondary_values_of(d) matches Some(vals)
            && vals.len() == 1 && labelled_as(vals, "Usage"@, usage_value(x.usage_percent))
            && secondary_metric_of(d) == Some(MetricKindDB::Usage),
        usage_value(None) is None,
        forall|p: Percent| usage_value(Some(p)) == Some(MetricValue::Percent(p)),
{
    reveal_strlit("Download");
    reveal_strlit("Upload");
    reveal_strlit("Read");
    reveal_strlit("Write");
    assert("Download"@.len() != "Upload"@.len());
    assert("Read"@[0] != "Write"@[0]);
    match d {
        DataDB::Sensor(SensorData::Network(x)) => {
            let vals = secondary_values_of(d)->Some_0;
            assert(vals[0].0 == "Download"@);
            assert(vals[1].0 == "Upload"@);
        },
        DataDB::Sensor(SensorData::Disk(x)) => {
            let vals = secondary_values_of(d)->Some_0;
            assert(vals[0].0 == "Read"@);
            assert(vals[1].0 == "Write"@);
        },
        DataDB::Sensor(SensorData::CPU(x)) => {
            let vals = secondary_values_of(d)->Some_0;
            assert(vals[0].0 == "Usage"@);
        },
        DataDB::Sensor(SensorData::GPU(x)) => {
            let vals = secondary_values_of(d)->Some_0;
            assert(vals[0].0 == "Usage"@);
        },
        DataDB::Sensor(SensorData::Ram(x)) => {
            let vals = secondary_values_of(d)->Some_0;
            assert(vals[0].0 == "Usage"@);
        },
        _ => {},
    }
}

impl DataDB {
    /// Returns the total energy, if available.
    pub fn total_energy(&self) -> (e: Option<EnergyUj>)
        ensures
            e == data_energy(*self),
    {
        match self {
            DataDB::Sensor(s) => s.total_energy(),
            DataDB::Total(t) => Some(t.total_energy),
            DataDB::Process(_) => None,
        }
    }

    /// Returns the database table name for this variant.
    pub fn table_name(&self) -> (t: &'static str)
        ensures
            t@ == data_table_name(*self),
    {
        match self {
            DataDB::Sensor(SensorData::CPU(_)) => CPUData::table_name_static(),
            DataDB::Sensor(SensorData::GPU(_)) => GPUData::table_name_static(),
            DataDB::Sensor(SensorData::Ram(_)) => RamData::table_name_static(),
            DataDB::Sensor(SensorData::Disk(_)) => DiskData::table_name_static(),
            DataDB::Sensor(SensorData::Network(_)) => NetworkData::table_name_static(),
            DataDB::Sensor(SensorData::Processes(_)) => ProcessDataDB::table_name_static(),
            DataDB::Process(_) => ProcessDataDB::table_name_static(),
            DataDB::Total(_) => TotalDataDB::table_name_static(),
        }
    }

    /// Returns the secondary metric kind for this sensor variant.
    pub fn secondary_metric(&self) -> (k: Option<MetricKindDB>)
        ensures
            k == secondary_metric_of(*self),
    {
        match self {
            DataDB::Sensor(SensorData::CPU(_)) => Some(MetricKindDB::Usage),
            DataDB::Sensor(SensorData::GPU(_)) => Some(MetricKindDB::Usage),
            DataDB::Sensor(SensorData::Ram(_)) => Some(MetricKindDB::Usage),
            DataDB::Sensor(SensorData::Disk(_)) => Some(MetricKindDB::Speed),
            DataDB::Sensor(SensorData::Network(_)) => Some(MetricKindDB::Speed),
            _ => None,
        }
    }

    /// Returns the secondary metrics (usage or throughput), if the reading has any.
    pub fn secondary_values(&self) -> (v: Option<SecondaryValues>)
        ensures
            match secondary_values_of(*self) {
                Some(vals) => v is Some && v->Some_0.metric_kind == secondary_metric_of(
                    *self,
                )->Some_0 && v->Some_0.values@.map_values(|l: LabeledValue| labeled(l)) == vals,
                None => v is None,
            },
    {
        let metric_type = match self.secondary_metric() {
            Some(m) => m,
            None => {
                return None;
            },
        };
        let values: Vec<LabeledValue> = match self {
            DataDB::Sensor(SensorData::CPU(data)) => vec![
                LabeledValue::from_usage_percent(data.usage_percent),
            ],
            DataDB::Sensor(SensorData::GPU(data)) => vec![
                LabeledValue::from_usage_percent(data.usage_percent),
            ],
            DataDB::Sensor(SensorData::Ram(data)) => vec![
                LabeledValue::from_usage_percent(data.usage_percent),
            ],
            DataDB::Sensor(SensorData::Disk(data)) => vec![
                LabeledValue::from_bytes(data.read_bytes, "Read"),
                LabeledValue::from_bytes(data.written_bytes, "Write"),
            ],
            DataDB::Sensor(SensorData::Network(data)) => vec![
                LabeledValue::from_bytes(data.downloaded_bytes, "Download"),
                LabeledValue::from_bytes(data.uploaded_bytes, "Upload"),
            ],
            _ => {
                return None;
            },
        };
        let r = SecondaryValues::from_labeled_values(metric_type, values);
        proof {
            assert(r.values@.map_values(|l: LabeledValue| labeled(l)) =~= secondary_values_of(
                *self,
            )->Some_0);
        }
        Some(r)
    }
}

/// The table of a kind of data.
pub open spec fn kind_table_name(k: DataKindDB) -> Seq<char> {
    match k {
        DataKindDB::CPU => "cpu_data"@,
        DataKindDB::GPU => "gpu_data"@,
        DataKindDB::Total => "total_data"@,
        DataKindDB::Ram => "ram_data"@,
        DataKindDB::Disk => "disk_data"@,
        DataKindDB::Network => "network_data"@,
        DataKindDB::Process => "process_data"@,
    }
}

/// The kind of data a sensor produces.
pub open spec fn data_kind_of(k: SensorKind) -> DataKindDB {
    match k {
        SensorKind::CPU => DataKindDB::CPU,
        SensorKind::GPU => DataKindDB::GPU,
        SensorKind::Ram => DataKindDB::Ram,
        SensorKind::Disk => DataKindDB::Disk,
        SensorKind::Network => DataKindDB::Network,
        SensorKind::Processes => DataKindDB::Process,
    }
}

impl DataKindDB {
    /// The kind of data a sensor produces.
    pub fn from(sk: SensorKind) -> (r: Self)
        ensures
            r == data_kind_of(sk),
    {
        match sk {
            SensorKind::CPU => DataKindDB::CPU,
            SensorKind::GPU => DataKindDB::GPU,
            SensorKind::Ram => DataKindDB::Ram,
            SensorKind::Disk => DataKindDB::Disk,
            SensorKind::Network => DataKindDB::Network,
            SensorKind::Processes => DataKindDB::Process,
        }
    }

    /// The table that holds this kind of data.
    pub fn table_name(&self) -> (t: &'static str)
        ensures
            t@ == kind_table_name(*self),
    {
        match self {
            DataKindDB::CPU => CPUData::table_name_static(),
            DataKindDB::GPU => GPUData::table_name_static(),
            DataKindDB::Total => TotalDataDB::table_name_static(),
            DataKindDB::Ram => RamData::table_name_static(),
            DataKindDB::Disk => DiskData::table_name_static(),
            DataKindDB::Network => NetworkData::table_name_static(),
            DataKindDB::Process => ProcessDataDB::table_name_static(),
        }
    }
}

/// Different kinds of metric in the database.
#[derive(Debug, Clone, Copy, PartialEq, Eq, Structural)]
pub enum MetricKindDB {
    Power,
    Usage,
    Speed,
}

impl Default for MetricKindDB {
    fn default() -> (r: Self)
        ensures
            r == MetricKindDB::Power,
    {
        MetricKindDB::Power
    }
}

/// The label of a metric kind, which is also its displayed text.
pub open spec fn metric_label(k: MetricKindDB) -> Seq<char> {
    match k {
        MetricKindDB::Power => "Power"@,
        MetricKindDB::Usage => "Usage"@,
        MetricKindDB::Speed => "Speed"@,
    }
}

/// The measurement unit of a metric kind.
pub open spec fn metric_unit(k: MetricKindDB) -> Seq<char> {
    match k {
        MetricKindDB::Power => "W"@,
        MetricKindDB::Usage => "%"@,
        MetricKindDB::Speed => "MB/s"@,
    }
}

impl MetricKindDB {
    /// Returns the human-readable label.
    pub fn label(&self) -> (s: &'static str)
        ensures
            s@ == metric_label(*self),
    {
        match self {
            MetricKindDB::Power => "Power",
            MetricKindDB::Usage => "Usage",
            MetricKindDB::Speed => "Speed",
        }
    }

    /// Returns the measurement unit string.
    pub fn unit_label(&self) -> (s: &'static str)
        ensures
            s@ == metric_unit(*self),
    {
        match self {
            MetricKindDB::Power => "W",
            MetricKindDB::Usage => "%",
            MetricKindDB::Speed => "MB/s",
        }
    }

    /// Formats a chart legend label for the given component: `"<component> <label>"`.
    pub fn legend(&self, component_name: &str) -> (s: String)
        ensures
            s@ == component_name@ + seq![' '] + metric_label(*self),
    {
        let mut s = String::from_str(component_name);
        s.append(" ");
        s.append(self.label());
        proof {
            reveal_strlit(" ");
            assert(s@ =~= component_name@ + seq![' '] + metric_label(*self));
        }
        s
    }

    /// Returns the display unit: watt-hours for power in energy mode, otherwise the
    /// kind's unit.
    pub fn effective_unit(&self, energy_mode: bool) -> (s: &'static str)
        ensures
            s@ == (if *self == MetricKindDB::Power && energy_mode {
                "Wh"@
            } else {
                metric_unit(*self)
            }),
    {
        if *self == MetricKindDB::Power && energy_mode {
            "Wh"
        } else {
            self.unit_label()
        }
    }
}

/// The table names of a database: those of the sensors' kinds, then the process and
/// total tables, joined by commas.
pub open spec fn tables_text(sensors: Seq<SensorKind>) -> Seq<char> {
    joined(
        sensors.map_values(|k: SensorKind| kind_table_name(data_kind_of(k))) + seq![
            "process_data"@,
            "total_data"@,
        ],
        seq![','],
    )
}

impl GeneralDataDB {
    /// The database form of the general data; `hardware_info_serialized` is the JSON
    /// text of its hardware information.
    pub fn from(data: GeneralData, hardware_info_serialized: String) -> (r: Self)
        ensures
            r.tables@ == tables_text(data.sensors@),
            r.hardware_info_serialized@ == hardware_info_serialized@,
    {
        let mut tables: Vec<String> = Vec::new();
        let ghost f = |k: SensorKind| kind_table_name(data_kind_of(k));
        let ghost g = |x: String| x@;
        let mut i: usize = 0;
        while i < data.sensors.len()
            invariant
                i <= data.sensors@.len(),
                f == (|k: SensorKind| kind_table_name(data_kind_of(k))),
                g == (|x: String| x@),
                tables@.map_values(g) == data.sensors@.take(i as int).map_values(f),
            decreases data.sensors@.len() - i,
        {
            let ghost before = tables@;
            let name = String::from_str(DataKindDB::from(data.sensors[i]).table_name());
            tables.push(name);
            proof {
                assert(data.sensors@.take(i + 1) =~= data.sensors@.take(i as int).push(
                    data.sensors@[i as int],
                ));
                assert(tables@ == before.push(name));
                assert(name@ == f(data.sensors@[i as int]));
                assert(tables@.map_values(g) =~= before.map_values(g).push(name@));
                assert(tables@.map_values(g) =~= data.sensors@.take(i + 1).map_values(f));
            }
            i = i + 1;
        }
        let ghost before = tables@;
        let p = String::from_str(ProcessDataDB::table_name_static());
        let t = String::from_str(TotalDataDB::table_name_static());
        tables.push(p);
        tables.push(t);
        proof {
            assert(data.sensors@.take(data.sensors@.len() as int) =~= data.sensors@);
            assert(tables@ == before.push(p).push(t));
            assert(tables@.map_values(g) =~= before.map_values(g).push(p@).push(t@));
            assert(tables@.map_values(g) =~= data.sensors@.map_values(f) + seq![
                "process_data"@,
                "total_data"@,
            ]);
        }
        let mut joined_tables = String::new();
        push_joined(&mut joined_tables, &tables, ",");
        proof {
            reveal_strlit(",");
            assert(","@ =~= seq![',']);
            assert(joined_tables@ =~= joined(tables@.map_values(g), seq![',']));
            assert(joined_tables@ =~= tables_text(data.sensors@));
        }
        Self { tables: joined_tables, hardware_info_serialized }
    }
}

} // verus!
