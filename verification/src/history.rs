//! The terminal history that is kept in SQLite: the records, the
//! statements, the choice of statement when a command is saved, and the
//! messages of the failures.
use vstd::prelude::*;
use crate::text::concat2;

verus! {

/// A command run in a terminal tab.
pub struct TerminalCommandRecord {
    /// The row's identifier once it is stored.
    pub id: Option<i64>,
    pub terminal_tab_id: i64,
    pub command: String,
    pub time: String,
    pub status: Option<String>,
    pub exit_code: Option<i32>,
    pub output: Option<String>,
}

/// A terminal tab.
pub struct TerminalTabRecord {
    pub id: i64,
    pub name: String,
    pub last_used: String,
}

/// The table of tabs.
pub const CREATE_TABS_TABLE: &'static str = "CREATE TABLE IF NOT EXISTS terminal_tabs (
                id INTEGER PRIMARY KEY,
                name TEXT NOT NULL,
                last_used TEXT NOT NULL
            )";

/// The table of commands.
pub const CREATE_COMMANDS_TABLE: &'static str = "CREATE TABLE IF NOT EXISTS terminal_commands (
                id INTEGER PRIMARY KEY AUTOINCREMENT,
                terminal_tab_id INTEGER NOT NULL,
                command TEXT NOT NULL,
                time TEXT NOT NULL,
                status TEXT,
                exit_code INTEGER,
                output TEXT,
                FOREIGN KEY (terminal_tab_id) REFERENCES terminal_tabs (id)
            )";

/// Stores a tab, replacing the one with its identifier.
pub const SAVE_TAB: &'static str = "INSERT OR REPLACE INTO terminal_tabs (id, name, last_used) VALUES (?, ?, ?)";

/// The tabs, the most recently used first.
pub const SELECT_TABS: &'static str = "SELECT id, name, last_used FROM terminal_tabs ORDER BY last_used DESC";

/// Deletes the commands of a tab.
pub const DELETE_TAB_COMMANDS: &'static str = "DELETE FROM terminal_commands WHERE terminal_tab_id = ?";

/// Deletes a tab.
pub const DELETE_TAB: &'static str = "DELETE FROM terminal_tabs WHERE id = ?";

/// Rewrites a stored command.
pub const UPDATE_COMMAND: &'static str = "UPDATE terminal_commands SET 
             terminal_tab_id = ?, command = ?, time = ?, status = ?, exit_code = ?, output = ?
             WHERE id = ?";

/// Looks for the same command at the same time in the same tab.
pub const FIND_SAME_COMMAND: &'static str = "SELECT id FROM terminal_commands 
         WHERE terminal_tab_id = ? AND command = ? AND time = ? 
         LIMIT 1";

/// Records the result of a command stored before.
pub const UPDATE_COMMAND_RESULT: &'static str = "UPDATE terminal_commands SET 
             status = ?, exit_code = ?, output = ?
             WHERE id = ?";

/// Stores a new command.
pub const INSERT_COMMAND: &'static str = "INSERT INTO terminal_commands 
         (terminal_tab_id, command, time, status, exit_code, output)
         VALUES (?, ?, ?, ?, ?, ?)";

/// The commands of a tab, in the order they were stored.
pub const SELECT_TAB_COMMANDS: &'static str = "SELECT id, terminal_tab_id, command, time, status, exit_code, output 
         FROM terminal_commands 
         WHERE terminal_tab_id = ? 
         ORDER BY id ASC";

/// Deletes a command.
pub const DELETE_COMMAND: &'static str = "DELETE FROM terminal_commands WHERE id = ?";

/// How a command is saved.
#[derive(Clone, Copy, PartialEq, Eq, Structural)]
pub enum CommandSave {
    /// The record has its row: rewrite it (`UPDATE_COMMAND`).
    Rewrite(i64),
    /// Look for the same command at the same time (`FIND_SAME_COMMAND`)
    /// first.
    LookForSame,
}

/// How a command is saved: a record that has its identifier rewrites its
/// row; any other is first looked for.
pub fn plan_command_save(record: &TerminalCommandRecord) -> (r: CommandSave)
    ensures
        match record.id {
            Some(id) => r == CommandSave::Rewrite(id),
            None => r == CommandSave::LookForSame,
        },
{
    match record.id {
        Some(id) => CommandSave::Rewrite(id),
        None => CommandSave::LookForSame,
    }
}

/// What follows the search for the same command: the result of the first
/// one found is recorded in its row (`UPDATE_COMMAND_RESULT`), or, where
/// there is none, a row is added (`INSERT_COMMAND`).
pub fn after_same_command_search(found: &Vec<i64>) -> (r: Option<i64>)
    ensures
        found@.len() > 0 ==> r == Some(found@[0]),
        found@.len() == 0 ==> r is None,
{
    if found.len() > 0 {
        Some(found[0])
    } else {
        None
    }
}

/// The steps of the history's work that can fail.
#[derive(Clone, Copy, PartialEq, Eq, Structural)]
pub enum HistoryStep {
    AppDirectory,
    CreateDirectory,
    Open,
    CreateTabsTable,
    CreateCommandsTable,
    Lock,
    SaveTab,
    Prepare,
    Query,
    ReadRow,
    BeginTransaction,
    DeleteCommands,
    DeleteTab,
    Commit,
    RewriteCommand,
    RecordResult,
    InsertCommand,
    DeleteCommand,
    ClearHistory,
}

/// What the message of a failure starts with.
pub open spec fn step_prefix(step: HistoryStep) -> Seq<char> {
    match step {
        HistoryStep::AppDirectory => "Не удалось получить директорию приложения: "@,
        HistoryStep::CreateDirectory => "Не удалось создать директорию: "@,
        HistoryStep::Open => "Не удалось открыть соединение с БД: "@,
        HistoryStep::CreateTabsTable => "Не удалось создать таблицу terminal_tabs: "@,
        HistoryStep::CreateCommandsTable => "Не удалось создать таблицу terminal_commands: "@,
        HistoryStep::Lock => "Ошибка блокировки мьютекса: "@,
        HistoryStep::SaveTab => "Не удалось сохранить вкладку: "@,
        HistoryStep::Prepare => "Ошибка подготовки запроса: "@,
        HistoryStep::Query => "Ошибка выполнения запроса: "@,
        HistoryStep::ReadRow => "Ошибка чтения строки: "@,
        HistoryStep::BeginTransaction => "Ошибка создания транзакции: "@,
        HistoryStep::DeleteCommands => "Ошибка удаления команд: "@,
        HistoryStep::DeleteTab => "Ошибка удаления вкладки: "@,
        HistoryStep::Commit => "Ошибка фиксации транзакции: "@,
        HistoryStep::RewriteCommand => "Не удалось обновить команду: "@,
        HistoryStep::RecordResult => "Не удалось обновить существующую команду: "@,
        HistoryStep::InsertCommand => "Не удалось сохранить команду: "@,
        HistoryStep::DeleteCommand => "Ошибка удаления команды: "@,
        HistoryStep::ClearHistory => "Ошибка очистки истории: "@,
    }
}

/// The message of the failure of a step, with the error's own text.
pub fn history_error(step: HistoryStep, detail: &str) -> (r: String)
    ensures
        r@ == step_prefix(step) + detail@,
{
    let p = match step {
        HistoryStep::AppDirectory => "Не удалось получить директорию приложения: ",
        HistoryStep::CreateDirectory => "Не удалось создать директорию: ",
        HistoryStep::Open => "Не удалось открыть соединение с БД: ",
        HistoryStep::CreateTabsTable => "Не удалось создать таблицу terminal_tabs: ",
        HistoryStep::CreateCommandsTable => "Не удалось создать таблицу terminal_commands: ",
        HistoryStep::Lock => "Ошибка блокировки мьютекса: ",
        HistoryStep::SaveTab => "Не удалось сохранить вкладку: ",
        HistoryStep::Prepare => "Ошибка подготовки запроса: ",
        HistoryStep::Query => "Ошибка выполнения запроса: ",
        HistoryStep::ReadRow => "Ошибка чтения строки: ",
        HistoryStep::BeginTransaction => "Ошибка создания транзакции: ",
        HistoryStep::DeleteCommands => "Ошибка удаления команд: ",
        HistoryStep::DeleteTab => "Ошибка удаления вкладки: ",
        HistoryStep::Commit => "Ошибка фиксации транзакции: ",
        HistoryStep::RewriteCommand => "Не удалось обновить команду: ",
        HistoryStep::RecordResult => "Не удалось обновить существующую команду: ",
        HistoryStep::InsertCommand => "Не удалось сохранить команду: ",
        HistoryStep::DeleteCommand => "Ошибка удаления команды: ",
        HistoryStep::ClearHistory => "Ошибка очистки истории: ",
    };
    concat2(p, detail)
}

} // verus!
