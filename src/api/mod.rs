pub mod create_image;
