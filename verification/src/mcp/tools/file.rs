use vstd::prelude::*;

verus! {

/// The arguments of the `sftp_list` tool (list files in a directory via SFTP).
#[derive(Debug)]
pub struct SftpListRequest {
    pub path: String,
}

/// The arguments of the `sftp_read` tool (read a file via SFTP).
#[derive(Debug)]
pub struct SftpReadRequest {
    pub path: String,
}

/// The arguments of the `sftp_write` tool (write a file via SFTP).
#[derive(Debug)]
pub struct SftpWriteRequest {
    pub path: String,
    pub content: String,
}

/// The arguments of the `sftp_delete` tool (delete a file via SFTP).
#[derive(Debug)]
pub struct SftpDeleteRequest {
    pub path: String,
}

/// The arguments of the `sftp_mkdir` tool (create a directory via SFTP).
#[derive(Debug)]
pub struct SftpMkdirRequest {
    pub path: String,
}

/// The arguments of the `sftp_move` tool (move/rename a file via SFTP).
#[derive(Debug)]
pub struct SftpMoveRequest {
    pub source: String,
    pub destination: String,
}

/// The arguments of the `sftp_stat` tool (get file/directory info via SFTP).
#[derive(Debug)]
pub struct SftpStatRequest {
    pub path: String,
}

} // verus!
