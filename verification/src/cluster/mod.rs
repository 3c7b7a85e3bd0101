pub mod kube_client;
pub mod mock_client;
