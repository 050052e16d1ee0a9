//! The SQL text that the collector and the web API send to the database:
//! table definitions, inserts, and the selects over a time window.
use vstd::prelude::*;

use crate::text::run_of;

verus! {

broadcast use vstd::string::group_string_axioms;

/// The tables of the measurement database.
#[derive(PartialEq, Eq, Structural, Clone, Copy, Debug)]
pub enum Table {
    PowerConsumptions,
    PvPowers,
    SystemLogs,
}

/// The name of each table.
pub open spec fn table_name(t: Table) -> Seq<char> {
    match t {
        Table::PowerConsumptions => "power_consumptions"@,
        Table::PvPowers => "pv_powers"@,
        Table::SystemLogs => "system_logs"@,
    }
}

/// The statement that creates each table unless it exists.
pub open spec fn create_text(t: Table) -> Seq<char> {
    match t {
        Table::PowerConsumptions => "CREATE TABLE IF NOT EXISTS power_consumptions (\n            id        INTEGER PRIMARY KEY,\n            timestamp TEXT,\n            current   FLOAT,\n            voltage   FLOAT,\n            power     FLOAT\n        )"@,
        Table::PvPowers => "CREATE TABLE IF NOT EXISTS pv_powers (\n            id        INTEGER PRIMARY KEY,\n            timestamp TEXT,\n            current   FLOAT,\n            voltage   FLOAT,\n            power     FLOAT\n        )"@,
        Table::SystemLogs => "CREATE TABLE IF NOT EXISTS system_logs (\n            id                  INTEGER PRIMARY KEY,\n            timestamp           TEXT,\n            used_memory_percent FLOAT,\n            used_swap_percent   FLOAT,\n            used_disk_percent   FLOAT,\n            used_cpu_percent    FLOAT,\n            cpu_temperature     FLOAT,\n            running_processes   INT\n        )"@,
    }
}

impl Table {
    /// The table's name.
    pub fn name(&self) -> (n: &'static str)
        ensures
            n@ == table_name(*self),
    {
        match self {
            Table::PowerConsumptions => "power_consumptions",
            Table::PvPowers => "pv_powers",
            Table::SystemLogs => "system_logs",
        }
    }

    /// The statement that creates the table unless it exists.
    pub fn create_statement(&self) -> (sql: &'static str)
        ensures
            sql@ == create_text(*self),
    {
        match self {
            Table::PowerConsumptions => "CREATE TABLE IF NOT EXISTS power_consumptions (\n            id        INTEGER PRIMARY KEY,\n            timestamp TEXT,\n            current   FLOAT,\n            voltage   FLOAT,\n            power     FLOAT\n        )",
            Table::PvPowers => "CREATE TABLE IF NOT EXISTS pv_powers (\n            id        INTEGER PRIMARY KEY,\n            timestamp TEXT,\n            current   FLOAT,\n            voltage   FLOAT,\n            power     FLOAT\n        )",
            Table::SystemLogs => "CREATE TABLE IF NOT EXISTS system_logs (\n            id                  INTEGER PRIMARY KEY,\n            timestamp           TEXT,\n            used_memory_percent FLOAT,\n            used_swap_percent   FLOAT,\n            used_disk_percent   FLOAT,\n            used_cpu_percent    FLOAT,\n            cpu_temperature     FLOAT,\n            running_processes   INT\n        )",
        }
    }
}

/// The order in which the collector creates the tables.
pub open spec fn creation_order() -> Seq<Table> {
    seq![Table::PowerConsumptions, Table::SystemLogs, Table::PvPowers]
}

/// The tables in the order in which the collector creates them.
pub fn tables_in_creation_order() -> (tables: Vec<Table>)
    ensures
        tables@ == creation_order(),
{
    let mut tables = Vec::new();
    tables.push(Table::PowerConsumptions);
    tables.push(Table::SystemLogs);
    tables.push(Table::PvPowers);
    tables
}

/// The statement that stores one current/voltage/power measurement into
/// `table_name`, with its four values bound as parameters `?1` to `?4`.
pub fn insert_measurement_statement(table_name: &str) -> (sql: String)
    ensures
        sql@ == "INSERT INTO "@ + table_name@
            + " (timestamp, current, voltage, power) VALUES (?1, ?2, ?3, ?4)"@,
        sql@ == "INSERT INTO "@ + table_name@ + " ("@ + sensor_fields()[1] + ", "@
            + sensor_fields()[2] + ", "@ + sensor_fields()[3] + ", "@ + sensor_fields()[4]
            + ") VALUES (?1, ?2, ?3, ?4)"@,
{
    proof {
        lemma_insert_columns(table_name@);
    }
    let mut sql = String::from_str("INSERT INTO ");
    sql.append(table_name);
    sql.append(" (timestamp, current, voltage, power) VALUES (?1, ?2, ?3, ?4)");
    sql
}

/// The statement that stores one system measurement, with its seven values
/// bound as parameters `?1` to `?7`.
pub fn insert_system_statement() -> (sql: &'static str)
    ensures
        sql@ == "INSERT INTO system_logs (\n            timestamp, used_memory_percent, used_swap_percent, used_disk_percent, used_cpu_percent, cpu_temperature, running_processes\n        ) VALUES (?1, ?2, ?3, ?4, ?5, ?6, ?7)"@,
        sql@ == "INSERT INTO system_logs ("@ + newline_indent(12) + system_fields()[1] + ", "@
            + system_fields()[2] + ", "@ + system_fields()[3] + ", "@ + system_fields()[4] + ", "@
            + system_fields()[5] + ", "@ + system_fields()[6] + ", "@ + system_fields()[7]
            + newline_indent(8) + ") VALUES (?1, ?2, ?3, ?4, ?5, ?6, ?7)"@,
{
    proof {
        reveal_strlit("timestamp");
        reveal_strlit("used_memory_percent");
        reveal_strlit("used_swap_percent");
        reveal_strlit("used_disk_percent");
        reveal_strlit("used_cpu_percent");
        reveal_strlit("cpu_temperature");
        reveal_strlit("running_processes");
        reveal_strlit(", ");
        reveal_strlit("INSERT INTO system_logs (");
        reveal_strlit(") VALUES (?1, ?2, ?3, ?4, ?5, ?6, ?7)");
        reveal_strlit(
            "INSERT INTO system_logs (\n            timestamp, used_memory_percent, used_swap_percent, used_disk_percent, used_cpu_percent, cpu_temperature, running_processes\n        ) VALUES (?1, ?2, ?3, ?4, ?5, ?6, ?7)",
        );
        let f = system_fields();
        assert("INSERT INTO system_logs (\n            timestamp, used_memory_percent, used_swap_percent, used_disk_percent, used_cpu_percent, cpu_temperature, running_processes\n        ) VALUES (?1, ?2, ?3, ?4, ?5, ?6, ?7)"@
            =~= "INSERT INTO system_logs ("@ + newline_indent(12) + f[1] + ", "@ + f[2] + ", "@
            + f[3] + ", "@ + f[4] + ", "@ + f[5] + ", "@ + f[6] + ", "@ + f[7] + newline_indent(8)
            + ") VALUES (?1, ?2, ?3, ?4, ?5, ?6, ?7)"@);
    }
    "INSERT INTO system_logs (\n            timestamp, used_memory_percent, used_swap_percent, used_disk_percent, used_cpu_percent, cpu_temperature, running_processes\n        ) VALUES (?1, ?2, ?3, ?4, ?5, ?6, ?7)"
}

/// The select over the measurements of `table` between the time stamps
/// `from` and `to`, averaged over buckets of ten minutes.
pub open spec fn ina_bucket_text(table: Seq<char>, from: Seq<char>, to: Seq<char>) -> Seq<char> {
    "SELECT \n        id, \n        min(timestamp), \n        avg(current), \n        avg(voltage), \n        avg(power) \n        FROM "@
        + table + " \n        WHERE timestamp >= \""@ + from + "\" AND timestamp <= \""@ + to
        + "\" \n        GROUP BY strftime('%s',timestamp) / 600"@
}

/// The select over the system measurements between the time stamps `from`
/// and `to`, averaged over buckets of ten minutes.
pub open spec fn system_bucket_text(from: Seq<char>, to: Seq<char>) -> Seq<char> {
    "SELECT \n        id,\n        min(timestamp),\n        avg(used_memory_percent),\n        avg(used_swap_percent),\n        avg(used_disk_percent),\n        avg(used_cpu_percent),\n        avg(cpu_temperature),\n        max(running_processes)\n        FROM system_logs\n        WHERE timestamp >= \""@
        + from + "\" AND timestamp <= \""@ + to
        + "\"\n        GROUP BY strftime('%s',timestamp) / 600"@
}

/// The select over every measurement of `table` between the time stamps
/// `from` and `to`.
pub open spec fn ina_range_text(table: Seq<char>, from: Seq<char>, to: Seq<char>) -> Seq<char> {
    "SELECT id, timestamp, current, voltage, power FROM "@ + table
        + " WHERE timestamp >= \""@ + from + "\" AND timestamp <= \""@ + to + "\""@
}

/// The select over every system measurement between the time stamps
/// `from` and `to`.
pub open spec fn system_range_text(from: Seq<char>, to: Seq<char>) -> Seq<char> {
    "SELECT \n        id,\n        timestamp,\n        used_memory_percent,\n        used_swap_percent,\n        used_disk_percent,\n        used_cpu_percent,\n        cpu_temperature,\n        running_processes\n        FROM system_logs\n        WHERE timestamp >= \""@
        + from + "\" AND timestamp <= \""@ + to + "\""@
}

/// Builds the bucketed select over the measurements of `table`.
pub fn ina_bucket_select(table: &str, from: &str, to: &str) -> (sql: String)
    ensures
        sql@ == ina_bucket_text(table@, from@, to@),
{
    let mut sql = String::from_str(
        "SELECT \n        id, \n        min(timestamp), \n        avg(current), \n        avg(voltage), \n        avg(power) \n        FROM ",
    );
    sql.append(table);
    sql.append(" \n        WHERE timestamp >= \"");
    sql.append(from);
    sql.append("\" AND timestamp <= \"");
    sql.append(to);
    sql.append("\" \n        GROUP BY strftime('%s',timestamp) / 600");
    sql
}

/// Builds the bucketed select over the system measurements.
pub fn system_bucket_select(from: &str, to: &str) -> (sql: String)
    ensures
        sql@ == system_bucket_text(from@, to@),
{
    let mut sql = String::from_str(
        "SELECT \n        id,\n        min(timestamp),\n        avg(used_memory_percent),\n        avg(used_swap_percent),\n        avg(used_disk_percent),\n        avg(used_cpu_percent),\n        avg(cpu_temperature),\n        max(running_processes)\n        FROM system_logs\n        WHERE timestamp >= \"",
    );
    sql.append(from);
    sql.append("\" AND timestamp <= \"");
    sql.append(to);
    sql.append("\"\n        GROUP BY strftime('%s',timestamp) / 600");
    sql
}

/// Builds the plain select over the measurements of `table`.
pub fn ina_range_select(table: &str, from: &str, to: &str) -> (sql: String)
    ensures
        sql@ == ina_range_text(table@, from@, to@),
{
    let mut sql = String::from_str("SELECT id, timestamp, current, voltage, power FROM ");
    sql.append(table);
    sql.append(" WHERE timestamp >= \"");
    sql.append(from);
    sql.append("\" AND timestamp <= \"");
    sql.append(to);
    sql.append("\"");
    sql
}

/// Builds the plain select over the system measurements.
pub fn system_range_select(from: &str, to: &str) -> (sql: String)
    ensures
        sql@ == system_range_text(from@, to@),
{
    let mut sql = String::from_str(
        "SELECT \n        id,\n        timestamp,\n        used_memory_percent,\n        used_swap_percent,\n        used_disk_percent,\n        used_cpu_percent,\n        cpu_temperature,\n        running_processes\n        FROM system_logs\n        WHERE timestamp >= \"",
    );
    sql.append(from);
    sql.append("\" AND timestamp <= \"");
    sql.append(to);
    sql.append("\"");
    sql
}

/// The fields of a sensor measurement, in the order in which a row of a
/// sensor table is read: id, time stamp, current, voltage, power.
pub open spec fn sensor_fields() -> Seq<Seq<char>> {
    seq!["id"@, "timestamp"@, "current"@, "voltage"@, "power"@]
}

/// `field` wrapped in the aggregate `function`, as in `avg(power)`.
pub open spec fn aggregate(function: Seq<char>, field: Seq<char>) -> Seq<char> {
    function + seq!['('] + field + seq![')']
}

/// The bucketed select over a sensor table reads, column by column, the
/// id, the earliest time stamp and the averages of current, voltage and
/// power of each ten-minute bucket: column `i` holds field `i` of a sensor
/// measurement, so a row maps onto the fields in order.
pub proof fn lemma_ina_bucket_columns(table: Seq<char>, from: Seq<char>, to: Seq<char>)
    ensures
        ({
            let f = sensor_fields();
            let sep = seq![',', ' ', '\n'] + run_of(' ', 8);
            ina_bucket_text(table, from, to) == seq!['S', 'E', 'L', 'E', 'C', 'T', ' ', '\n']
                + run_of(' ', 8) + f[0] + sep + aggregate("min"@, f[1]) + sep + aggregate(
                "avg"@,
                f[2],
            ) + sep + aggregate("avg"@, f[3]) + sep + aggregate("avg"@, f[4]) + seq![' ', '\n']
                + run_of(' ', 8) + "FROM "@ + table + " \n        WHERE timestamp >= \""@ + from
                + "\" AND timestamp <= \""@ + to
                + "\" \n        GROUP BY strftime('%s',timestamp) / 600"@
        }),
{
    reveal_strlit("id");
    reveal_strlit("timestamp");
    reveal_strlit("current");
    reveal_strlit("voltage");
    reveal_strlit("power");
    reveal_strlit("min");
    reveal_strlit("avg");
    reveal_strlit("FROM ");
    reveal_strlit(
        "SELECT \n        id, \n        min(timestamp), \n        avg(current), \n        avg(voltage), \n        avg(power) \n        FROM ",
    );
    let f = sensor_fields();
    let sep = seq![',', ' ', '\n'] + run_of(' ', 8);
    assert("SELECT \n        id, \n        min(timestamp), \n        avg(current), \n        avg(voltage), \n        avg(power) \n        FROM "@
        =~= seq!['S', 'E', 'L', 'E', 'C', 'T', ' ', '\n'] + run_of(' ', 8) + f[0] + sep + aggregate(
        "min"@,
        f[1],
    ) + sep + aggregate("avg"@, f[2]) + sep + aggregate("avg"@, f[3]) + sep + aggregate(
        "avg"@,
        f[4],
    ) + seq![' ', '\n'] + run_of(' ', 8) + "FROM "@);
}

/// The fields of a system measurement, in the order in which a row of the
/// system log table is read.
pub open spec fn system_fields() -> Seq<Seq<char>> {
    seq![
        "id"@,
        "timestamp"@,
        "used_memory_percent"@,
        "used_swap_percent"@,
        "used_disk_percent"@,
        "used_cpu_percent"@,
        "cpu_temperature"@,
        "running_processes"@,
    ]
}

/// A line break followed by `n` spaces of indentation.
pub open spec fn newline_indent(n: nat) -> Seq<char> {
    seq!['\n'] + run_of(' ', n)
}

/// The column declaration of `field` in a table definition: the name padded
/// with spaces to `width` columns, then its SQL type.
pub open spec fn declaration(field: Seq<char>, width: nat, sql_type: Seq<char>) -> Seq<char> {
    field + run_of(' ', (width - field.len()) as nat) + sql_type
}

/// The SQL types of the sensor fields, in field order.
pub open spec fn sensor_types() -> Seq<Seq<char>> {
    seq!["INTEGER PRIMARY KEY"@, "TEXT"@, "FLOAT"@, "FLOAT"@, "FLOAT"@]
}

/// The SQL types of the system fields, in field order.
pub open spec fn system_types() -> Seq<Seq<char>> {
    seq![
        "INTEGER PRIMARY KEY"@,
        "TEXT"@,
        "FLOAT"@,
        "FLOAT"@,
        "FLOAT"@,
        "FLOAT"@,
        "FLOAT"@,
        "INT"@,
    ]
}

/// The bucketed select over the system logs reads, column by column, the
/// id, the earliest time stamp, the averages of memory, swap, disk and CPU
/// use and of the temperature, and the largest process count: column `i`
/// holds field `i` of a system measurement.
pub proof fn lemma_system_bucket_columns(from: Seq<char>, to: Seq<char>)
    ensures
        ({
            let f = system_fields();
            let sep = seq![','] + newline_indent(8);
            system_bucket_text(from, to) == "SELECT "@ + newline_indent(8) + f[0] + sep + aggregate(
                "min"@,
                f[1],
            ) + sep + aggregate("avg"@, f[2]) + sep + aggregate("avg"@, f[3]) + sep + aggregate(
                "avg"@,
                f[4],
            ) + sep + aggregate("avg"@, f[5]) + sep + aggregate("avg"@, f[6]) + sep + aggregate(
                "max"@,
                f[7],
            ) + newline_indent(8) + "FROM system_logs"@ + newline_indent(8)
                + "WHERE timestamp >= \""@ + from + "\" AND timestamp <= \""@ + to + "\""@
                + newline_indent(8) + "GROUP BY strftime('%s',timestamp) / 600"@
        }),
{
    reveal_strlit("id");
    reveal_strlit("timestamp");
    reveal_strlit("used_memory_percent");
    reveal_strlit("used_swap_percent");
    reveal_strlit("used_disk_percent");
    reveal_strlit("used_cpu_percent");
    reveal_strlit("cpu_temperature");
    reveal_strlit("running_processes");
    reveal_strlit("min");
    reveal_strlit("avg");
    reveal_strlit("max");
    reveal_strlit("SELECT ");
    reveal_strlit("FROM system_logs");
    reveal_strlit("WHERE timestamp >= \"");
    reveal_strlit("\"");
    reveal_strlit("\"\n        GROUP BY strftime('%s',timestamp) / 600");
    reveal_strlit("GROUP BY strftime('%s',timestamp) / 600");
    reveal_strlit(
        "SELECT \n        id,\n        min(timestamp),\n        avg(used_memory_percent),\n        avg(used_swap_percent),\n        avg(used_disk_percent),\n        avg(used_cpu_percent),\n        avg(cpu_temperature),\n        max(running_processes)\n        FROM system_logs\n        WHERE timestamp >= \"",
    );
    let f = system_fields();
    let sep = seq![','] + newline_indent(8);
    let head = "SELECT "@ + newline_indent(8) + f[0] + sep + aggregate("min"@, f[1]) + sep
        + aggregate("avg"@, f[2]) + sep + aggregate("avg"@, f[3]) + sep + aggregate(
        "avg"@,
        f[4],
    ) + sep + aggregate("avg"@, f[5]) + sep + aggregate("avg"@, f[6]) + sep + aggregate(
        "max"@,
        f[7],
    ) + newline_indent(8) + "FROM system_logs"@ + newline_indent(8) + "WHERE timestamp >= \""@;
    assert("SELECT \n        id,\n        min(timestamp),\n        avg(used_memory_percent),\n        avg(used_swap_percent),\n        avg(used_disk_percent),\n        avg(used_cpu_percent),\n        avg(cpu_temperature),\n        max(running_processes)\n        FROM system_logs\n        WHERE timestamp >= \""@
        =~= head);
    assert("\"\n        GROUP BY strftime('%s',timestamp) / 600"@ =~= "\""@ + newline_indent(8)
        + "GROUP BY strftime('%s',timestamp) / 600"@);
    let tail = "\"\n        GROUP BY strftime('%s',timestamp) / 600"@;
    assert(system_bucket_text(from, to) =~= head + from + "\" AND timestamp <= \""@ + to + tail);
}

/// The plain select over a sensor table reads, column by column, the
/// fields of a sensor measurement in order.
pub proof fn lemma_ina_range_columns(table: Seq<char>, from: Seq<char>, to: Seq<char>)
    ensures
        ({
            let f = sensor_fields();
            let sep = ", "@;
            ina_range_text(table, from, to) == "SELECT "@ + f[0] + sep + f[1] + sep + f[2] + sep
                + f[3] + sep + f[4] + " FROM "@ + table + " WHERE timestamp >= \""@ + from
                + "\" AND timestamp <= \""@ + to + "\""@
        }),
{
    reveal_strlit("id");
    reveal_strlit("timestamp");
    reveal_strlit("current");
    reveal_strlit("voltage");
    reveal_strlit("power");
    reveal_strlit(", ");
    reveal_strlit("SELECT ");
    reveal_strlit(" FROM ");
    reveal_strlit("SELECT id, timestamp, current, voltage, power FROM ");
    let f = sensor_fields();
    let sep = ", "@;
    assert("SELECT id, timestamp, current, voltage, power FROM "@ =~= "SELECT "@ + f[0] + sep + f[1]
        + sep + f[2] + sep + f[3] + sep + f[4] + " FROM "@);
}

/// The plain select over the system logs reads, column by column, the
/// fields of a system measurement in order: memory use in column 2, swap
/// use in column 3, then disk, CPU, temperature and process count.
pub proof fn lemma_system_range_columns(from: Seq<char>, to: Seq<char>)
    ensures
        ({
            let f = system_fields();
            let sep = seq![','] + newline_indent(8);
            system_range_text(from, to) == "SELECT "@ + newline_indent(8) + f[0] + sep + f[1] + sep
                + f[2] + sep + f[3] + sep + f[4] + sep + f[5] + sep + f[6] + sep + f[7]
                + newline_indent(8) + "FROM system_logs"@ + newline_indent(8)
                + "WHERE timestamp >= \""@ + from + "\" AND timestamp <= \""@ + to + "\""@
        }),
{
    reveal_strlit("id");
    reveal_strlit("timestamp");
    reveal_strlit("used_memory_percent");
    reveal_strlit("used_swap_percent");
    reveal_strlit("used_disk_percent");
    reveal_strlit("used_cpu_percent");
    reveal_strlit("cpu_temperature");
    reveal_strlit("running_processes");
    reveal_strlit("SELECT ");
    reveal_strlit("FROM system_logs");
    reveal_strlit("WHERE timestamp >= \"");
    reveal_strlit(
        "SELECT \n        id,\n        timestamp,\n        used_memory_percent,\n        used_swap_percent,\n        used_disk_percent,\n        used_cpu_percent,\n        cpu_temperature,\n        running_processes\n        FROM system_logs\n        WHERE timestamp >= \"",
    );
    let f = system_fields();
    let sep = seq![','] + newline_indent(8);
    assert("SELECT \n        id,\n        timestamp,\n        used_memory_percent,\n        used_swap_percent,\n        used_disk_percent,\n        used_cpu_percent,\n        cpu_temperature,\n        running_processes\n        FROM system_logs\n        WHERE timestamp >= \""@
        =~= "SELECT "@ + newline_indent(8) + f[0] + sep + f[1] + sep + f[2] + sep + f[3] + sep
        + f[4] + sep + f[5] + sep + f[6] + sep + f[7] + newline_indent(8) + "FROM system_logs"@
        + newline_indent(8) + "WHERE timestamp >= \""@);
}

/// The definition of a sensor table declares, one per line and in field
/// order, every field of a sensor measurement: the id as key, the time
/// stamp as text, current, voltage and power as floats. Together with
/// `lemma_insert_columns` this says that every column an insert names is
/// declared by the table it goes to.
pub proof fn lemma_sensor_table_columns(t: Table)
    requires
        t == Table::PowerConsumptions || t == Table::PvPowers,
    ensures
        ({
            let f = sensor_fields();
            let ty = sensor_types();
            let sep = seq![','] + newline_indent(12);
            create_text(t) == "CREATE TABLE IF NOT EXISTS "@ + table_name(t) + " ("@
                + newline_indent(12) + declaration(f[0], 10, ty[0]) + sep + declaration(
                f[1],
                10,
                ty[1],
            ) + sep + declaration(f[2], 10, ty[2]) + sep + declaration(f[3], 10, ty[3]) + sep
                + declaration(f[4], 10, ty[4]) + newline_indent(8) + ")"@
        }),
{
    reveal_strlit("id");
    reveal_strlit("timestamp");
    reveal_strlit("current");
    reveal_strlit("voltage");
    reveal_strlit("power");
    reveal_strlit("INTEGER PRIMARY KEY");
    reveal_strlit("TEXT");
    reveal_strlit("FLOAT");
    reveal_strlit("CREATE TABLE IF NOT EXISTS ");
    reveal_strlit(" (");
    reveal_strlit(")");
    reveal_strlit("power_consumptions");
    reveal_strlit("pv_powers");
    reveal_strlit(
        "CREATE TABLE IF NOT EXISTS power_consumptions (\n            id        INTEGER PRIMARY KEY,\n            timestamp TEXT,\n            current   FLOAT,\n            voltage   FLOAT,\n            power     FLOAT\n        )",
    );
    reveal_strlit(
        "CREATE TABLE IF NOT EXISTS pv_powers (\n            id        INTEGER PRIMARY KEY,\n            timestamp TEXT,\n            current   FLOAT,\n            voltage   FLOAT,\n            power     FLOAT\n        )",
    );
    let f = sensor_fields();
    let ty = sensor_types();
    let sep = seq![','] + newline_indent(12);
    assert(create_text(t) =~= "CREATE TABLE IF NOT EXISTS "@ + table_name(t) + " ("@
        + newline_indent(12) + declaration(f[0], 10, ty[0]) + sep + declaration(f[1], 10, ty[1])
        + sep + declaration(f[2], 10, ty[2]) + sep + declaration(f[3], 10, ty[3]) + sep
        + declaration(f[4], 10, ty[4]) + newline_indent(8) + ")"@);
}

/// The definition of the system log table declares, one per line and in
/// field order, every field of a system measurement: the id as key, the
/// time stamp as text, the percentages and the temperature as floats and
/// the process count as an integer.
pub proof fn lemma_system_table_columns()
    ensures
        ({
            let f = system_fields();
            let ty = system_types();
            let sep = seq![','] + newline_indent(12);
            create_text(Table::SystemLogs) == "CREATE TABLE IF NOT EXISTS "@ + table_name(
                Table::SystemLogs,
            ) + " ("@ + newline_indent(12) + declaration(f[0], 20, ty[0]) + sep + declaration(
                f[1],
                20,
                ty[1],
            ) + sep + declaration(f[2], 20, ty[2]) + sep + declaration(f[3], 20, ty[3]) + sep
                + declaration(f[4], 20, ty[4]) + sep + declaration(f[5], 20, ty[5]) + sep
                + declaration(f[6], 20, ty[6]) + sep + declaration(f[7], 20, ty[7])
                + newline_indent(8) + ")"@
        }),
{
    reveal_strlit("id");
    reveal_strlit("timestamp");
    reveal_strlit("used_memory_percent");
    reveal_strlit("used_swap_percent");
    reveal_strlit("used_disk_percent");
    reveal_strlit("used_cpu_percent");
    reveal_strlit("cpu_temperature");
    reveal_strlit("running_processes");
    reveal_strlit("INTEGER PRIMARY KEY");
    reveal_strlit("TEXT");
    reveal_strlit("FLOAT");
    reveal_strlit("INT");
    reveal_strlit("CREATE TABLE IF NOT EXISTS ");
    reveal_strlit(" (");
    reveal_strlit(")");
    reveal_strlit("system_logs");
    reveal_strlit(
        "CREATE TABLE IF NOT EXISTS system_logs (\n            id                  INTEGER PRIMARY KEY,\n            timestamp           TEXT,\n            used_memory_percent FLOAT,\n            used_swap_percent   FLOAT,\n            used_disk_percent   FLOAT,\n            used_cpu_percent    FLOAT,\n            cpu_temperature     FLOAT,\n            running_processes   INT\n        )",
    );
    let f = system_fields();
    let ty = system_types();
    let sep = seq![','] + newline_indent(12);
    assert(create_text(Table::SystemLogs) =~= "CREATE TABLE IF NOT EXISTS "@ + table_name(
        Table::SystemLogs,
    ) + " ("@ + newline_indent(12) + declaration(f[0], 20, ty[0]) + sep + declaration(
        f[1],
        20,
        ty[1],
    ) + sep + declaration(f[2], 20, ty[2]) + sep + declaration(f[3], 20, ty[3]) + sep
        + declaration(f[4], 20, ty[4]) + sep + declaration(f[5], 20, ty[5]) + sep + declaration(
        f[6],
        20,
        ty[6],
    ) + sep + declaration(f[7], 20, ty[7]) + newline_indent(8) + ")"@);
}

/// The sensor insert names, in order, the time stamp, current, voltage and
/// power fields (all fields but the generated id) and binds one parameter
/// to each.
pub proof fn lemma_insert_columns(table: Seq<char>)
    ensures
        ({
            let f = sensor_fields();
            let sep = ", "@;
            "INSERT INTO "@ + table
                + " (timestamp, current, voltage, power) VALUES (?1, ?2, ?3, ?4)"@
                == "INSERT INTO "@ + table + " ("@ + f[1] + sep + f[2] + sep + f[3] + sep + f[4]
                + ") VALUES (?1, ?2, ?3, ?4)"@
        }),
{
    reveal_strlit("timestamp");
    reveal_strlit("current");
    reveal_strlit("voltage");
    reveal_strlit("power");
    reveal_strlit(", ");
    reveal_strlit(" (");
    reveal_strlit(") VALUES (?1, ?2, ?3, ?4)");
    reveal_strlit(" (timestamp, current, voltage, power) VALUES (?1, ?2, ?3, ?4)");
    let f = sensor_fields();
    let sep = ", "@;
    assert(" (timestamp, current, voltage, power) VALUES (?1, ?2, ?3, ?4)"@ =~= " ("@ + f[1] + sep
        + f[2] + sep + f[3] + sep + f[4] + ") VALUES (?1, ?2, ?3, ?4)"@);
    assert("INSERT INTO "@ + table + " (timestamp, current, voltage, power) VALUES (?1, ?2, ?3, ?4)"@
        =~= "INSERT INTO "@ + table + (" ("@ + f[1] + sep + f[2] + sep + f[3] + sep + f[4]
        + ") VALUES (?1, ?2, ?3, ?4)"@));
}

/// The tables are named after what they hold, and no two share a name:
/// `power_consumptions`, `pv_powers` and `system_logs`.
pub proof fn lemma_table_names(t: Table)
    ensures
        t == Table::PowerConsumptions ==> table_name(t) == seq![
            'p', 'o', 'w', 'e', 'r', '_', 'c', 'o', 'n', 's', 'u', 'm', 'p', 't', 'i', 'o', 'n', 's',
        ],
        t == Table::PvPowers ==> table_name(t) == seq!['p', 'v', '_', 'p', 'o', 'w', 'e', 'r', 's'],
        t == Table::SystemLogs ==> table_name(t) == seq![
            's', 'y', 's', 't', 'e', 'm', '_', 'l', 'o', 'g', 's',
        ],
        forall|u: Table| #[trigger] table_name(u) == table_name(t) ==> u == t,
{
    reveal_strlit("power_consumptions");
    reveal_strlit("pv_powers");
    reveal_strlit("system_logs");
    assert forall|u: Table| #[trigger] table_name(u) == table_name(t) implies u == t by {
        if u != t {
            assert(table_name(u)[1] != table_name(t)[1] || table_name(u).len()
                != table_name(t).len());
        }
    }
}

/// The collector creates every table, each once.
pub proof fn lemma_creation_covers_tables(t: Table)
    ensures
        creation_order().len() == 3,
        creation_order().contains(t),
        forall|i: int, j: int|
            0 <= i < j < 3 ==> #[trigger] creation_order()[i] != #[trigger] creation_order()[j],
{
    match t {
        Table::PowerConsumptions => assert(creation_order()[0] == t),
        Table::SystemLogs => assert(creation_order()[1] == t),
        Table::PvPowers => assert(creation_order()[2] == t),
    }
}

} // verus!
