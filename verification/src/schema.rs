//! The database schema, applied at start-up. Statements are separated by
//! semicolons; comment lines are dropped before a statement is sent.

use vstd::prelude::*;

verus! {

pub const MIGRATION_SQL: &'static str = "\
-- Agents: one row per mailbox owner
CREATE TABLE IF NOT EXISTS agents (
    id SERIAL PRIMARY KEY,
    name TEXT NOT NULL UNIQUE,
    display_name TEXT,
    role TEXT,
    program TEXT,
    model TEXT,
    is_active BOOLEAN NOT NULL DEFAULT TRUE,
    created_at TIMESTAMPTZ NOT NULL DEFAULT NOW(),
    last_active_at TIMESTAMPTZ
);

-- Messages: one row per message sent
CREATE TABLE IF NOT EXISTS messages (
    id SERIAL PRIMARY KEY,
    from_agent_id INTEGER NOT NULL REFERENCES agents(id),
    thread_id TEXT NOT NULL,
    subject TEXT,
    body TEXT NOT NULL,
    body_format TEXT NOT NULL DEFAULT 'markdown',
    importance TEXT NOT NULL DEFAULT 'normal',
    created_at TIMESTAMPTZ NOT NULL DEFAULT NOW()
);

-- Inbox: one row per recipient of a message
CREATE TABLE IF NOT EXISTS inbox (
    id SERIAL PRIMARY KEY,
    message_id INTEGER NOT NULL REFERENCES messages(id),
    agent_id INTEGER NOT NULL REFERENCES agents(id),
    recipient_type TEXT NOT NULL DEFAULT 'to',
    read_at TIMESTAMPTZ,
    archived_at TIMESTAMPTZ
);

-- Settings: project-wide key/value pairs
CREATE TABLE IF NOT EXISTS settings (
    key TEXT PRIMARY KEY,
    value TEXT,
    updated_at TIMESTAMPTZ NOT NULL DEFAULT NOW()
);

-- Teams and projects
CREATE TABLE IF NOT EXISTS teams (
    id SERIAL PRIMARY KEY,
    name TEXT NOT NULL UNIQUE,
    created_at TIMESTAMPTZ NOT NULL DEFAULT NOW()
);

CREATE TABLE IF NOT EXISTS team_members (
    team_id INTEGER NOT NULL REFERENCES teams(id),
    agent_id INTEGER NOT NULL REFERENCES agents(id),
    PRIMARY KEY (team_id, agent_id)
);

CREATE TABLE IF NOT EXISTS projects (
    id SERIAL PRIMARY KEY,
    name TEXT NOT NULL UNIQUE,
    description TEXT,
    created_at TIMESTAMPTZ NOT NULL DEFAULT NOW()
);

CREATE TABLE IF NOT EXISTS kanban_boards (
    id SERIAL PRIMARY KEY,
    project_id INTEGER REFERENCES projects(id),
    name TEXT NOT NULL,
    created_at TIMESTAMPTZ NOT NULL DEFAULT NOW()
);

-- Indexes for inbox listings, marking read and thread reads
CREATE INDEX IF NOT EXISTS idx_inbox_agent_message_id ON inbox (agent_id, message_id DESC);
CREATE INDEX IF NOT EXISTS idx_inbox_message ON inbox (message_id);
CREATE INDEX IF NOT EXISTS idx_messages_from_created ON messages (from_agent_id, created_at DESC);
CREATE INDEX IF NOT EXISTS idx_messages_thread ON messages (thread_id, created_at);
";

} // verus!
