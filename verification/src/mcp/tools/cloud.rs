use vstd::prelude::*;

verus! {

/// The arguments of the `s3_list_objects` tool (list objects in an S3 bucket).
#[derive(Debug)]
pub struct S3ListObjectsRequest {
    pub bucket: String,
    pub prefix: Option<String>,
    pub max_keys: Option<u32>,
}

/// The arguments of the `s3_get_object` tool (get an object from S3).
#[derive(Debug)]
pub struct S3GetObjectRequest {
    pub bucket: String,
    pub key: String,
}

/// The arguments of the `s3_put_object` tool (upload an object to S3).
#[derive(Debug)]
pub struct S3PutObjectRequest {
    pub bucket: String,
    pub key: String,
    pub body: String,
    pub content_type: Option<String>,
}

/// The arguments of the `s3_delete_object` tool (delete an object from S3).
#[derive(Debug)]
pub struct S3DeleteObjectRequest {
    pub bucket: String,
    pub key: String,
}

/// The arguments of the `s3_get_presigned_url` tool (generate a presigned URL for S3 object).
#[derive(Debug)]
pub struct S3GetPresignedUrlRequest {
    pub bucket: String,
    pub key: String,
    pub expires_in: Option<u64>,
}

/// The arguments of the `gcs_list_objects` tool (list objects in a Google Cloud Storage bucket).
#[derive(Debug)]
pub struct GcsListObjectsRequest {
    pub bucket: String,
    pub prefix: Option<String>,
    pub max_results: Option<u32>,
}

/// The arguments of the `gcs_get_object` tool (get an object from Google Cloud Storage).
#[derive(Debug)]
pub struct GcsGetObjectRequest {
    pub bucket: String,
    pub object: String,
}

/// The arguments of the `gcs_upload_object` tool (upload an object to Google Cloud Storage).
#[derive(Debug)]
pub struct GcsUploadObjectRequest {
    pub bucket: String,
    pub object: String,
    pub data: String,
    pub content_type: Option<String>,
}

/// The arguments of the `gcs_delete_object` tool (delete an object from Google Cloud Storage).
#[derive(Debug)]
pub struct GcsDeleteObjectRequest {
    pub bucket: String,
    pub object: String,
}

/// The arguments of the `dropbox_list_folder` tool (list files in a Dropbox folder).
#[derive(Debug)]
pub struct DropboxListFolderRequest {
    pub path: String,
    pub recursive: Option<bool>,
}

/// The arguments of the `dropbox_download` tool (download a file from Dropbox).
#[derive(Debug)]
pub struct DropboxDownloadRequest {
    pub path: String,
}

/// The arguments of the `dropbox_upload` tool (upload a file to Dropbox).
#[derive(Debug)]
pub struct DropboxUploadRequest {
    pub path: String,
    pub content: String,
}

/// The arguments of the `dropbox_delete` tool (delete a file from Dropbox).
#[derive(Debug)]
pub struct DropboxDeleteRequest {
    pub path: String,
}

/// The arguments of the `dropbox_create_folder` tool (create a folder in Dropbox).
#[derive(Debug)]
pub struct DropboxCreateFolderRequest {
    pub path: String,
}

} // verus!
