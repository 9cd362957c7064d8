use vstd::prelude::*;

verus! {

/// The direction of a migration.
#[derive(Clone, Copy, Debug, PartialEq, Eq, Structural)]
pub enum MigrationKind {
    Up,
    Down,
}

/// One step in the history of the database schema.
#[derive(Clone, Debug)]
pub struct MigrationDefinition {
    pub version: i64,
    pub description: &'static str,
    pub sql: &'static str,
    pub kind: MigrationKind,
}

/// The mathematical value of a `MigrationDefinition`.
pub struct MigrationDefinitionView {
    pub version: i64,
    pub description: Seq<char>,
    pub sql: Seq<char>,
    pub kind: MigrationKind,
}

impl DeepView for MigrationDefinition {
    type V = MigrationDefinitionView;

    open spec fn deep_view(&self) -> MigrationDefinitionView {
        MigrationDefinitionView {
            version: self.version,
            description: self.description@,
            sql: self.sql@,
            kind: self.kind,
        }
    }
}

/// The statements that create the core tables.
pub const CORE_TABLES_SQL: &'static str = r#"
        PRAGMA foreign_keys = ON;

        CREATE TABLE IF NOT EXISTS projects (
            id TEXT PRIMARY KEY,
            name TEXT NOT NULL,
            path TEXT NOT NULL UNIQUE,
            detected_lang TEXT,
            created_at INTEGER NOT NULL,
            updated_at INTEGER NOT NULL
        );

        CREATE TABLE IF NOT EXISTS runs (
            id TEXT PRIMARY KEY,
            project_id TEXT NOT NULL,
            command TEXT NOT NULL,
            args TEXT,
            env TEXT,
            cwd TEXT,
            last_exit_code INTEGER,
            updated_at INTEGER NOT NULL,
            FOREIGN KEY (project_id) REFERENCES projects(id) ON DELETE CASCADE
        );

        CREATE TABLE IF NOT EXISTS terminals (
            id TEXT PRIMARY KEY,
            project_id TEXT NOT NULL,
            shell TEXT NOT NULL,
            created_at INTEGER NOT NULL,
            FOREIGN KEY (project_id) REFERENCES projects(id) ON DELETE CASCADE
        );

        CREATE TABLE IF NOT EXISTS git_remotes (
            id TEXT PRIMARY KEY,
            project_id TEXT NOT NULL,
            name TEXT NOT NULL,
            url TEXT NOT NULL,
            FOREIGN KEY (project_id) REFERENCES projects(id) ON DELETE CASCADE
        );

        CREATE TABLE IF NOT EXISTS settings (
            id TEXT PRIMARY KEY DEFAULT 'global',
            theme TEXT,
            telemetry_enabled INTEGER,
            git_path TEXT
        );
        "#;

/// The statement that creates the table of run states.
pub const RUN_STATUS_SQL: &'static str = r#"
        CREATE TABLE IF NOT EXISTS run_status (
            project_id TEXT PRIMARY KEY,
            status TEXT NOT NULL,
            last_run_id TEXT,
            last_command TEXT,
            last_args TEXT,
            last_env TEXT,
            last_cwd TEXT,
            last_exit_code INTEGER,
            started_at INTEGER,
            finished_at INTEGER,
            updated_at INTEGER NOT NULL,
            FOREIGN KEY (project_id) REFERENCES projects(id) ON DELETE CASCADE
        );
        "#;

/// The statement that creates the table of editor states.
pub const EDITOR_STATE_SQL: &'static str = r#"
        CREATE TABLE IF NOT EXISTS editor_state (
            id TEXT PRIMARY KEY DEFAULT 'global',
            open_files TEXT,
            active_file TEXT,
            view_state TEXT,
            updated_at INTEGER NOT NULL
        );
        "#;

/// The migrations, in the order in which they apply.
pub open spec fn all_definitions() -> Seq<MigrationDefinitionView> {
    seq![
        MigrationDefinitionView {
            version: 1,
            description: "create core projectlib tables"@,
            sql: CORE_TABLES_SQL@,
            kind: MigrationKind::Up,
        },
        MigrationDefinitionView {
            version: 2,
            description: "add run status tracking"@,
            sql: RUN_STATUS_SQL@,
            kind: MigrationKind::Up,
        },
        MigrationDefinitionView {
            version: 3,
            description: "add editor state table"@,
            sql: EDITOR_STATE_SQL@,
            kind: MigrationKind::Up,
        },
    ]
}

/// The migrations, in the order in which they apply: the versions count up
/// from one, and each migration goes upward.
pub fn definitions() -> (r: Vec<MigrationDefinition>)
    ensures
        r.deep_view() == all_definitions(),
        forall|i: int| 0 <= i < r@.len() ==> (#[trigger] r@[i]).version == i + 1,
        forall|i: int| 0 <= i < r@.len() ==> (#[trigger] r@[i]).kind == MigrationKind::Up,
{
    let mut all: Vec<MigrationDefinition> = Vec::new();
    all.push(
        MigrationDefinition {
            version: 1,
            description: "create core projectlib tables",
            sql: CORE_TABLES_SQL,
            kind: MigrationKind::Up,
        },
    );
    all.push(
        MigrationDefinition {
            version: 2,
            description: "add run status tracking",
            sql: RUN_STATUS_SQL,
            kind: MigrationKind::Up,
        },
    );
    all.push(
        MigrationDefinition {
            version: 3,
            description: "add editor state table",
            sql: EDITOR_STATE_SQL,
            kind: MigrationKind::Up,
        },
    );
    assert(all.deep_view() =~= all_definitions());
    all
}

} // verus!
