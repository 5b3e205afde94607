pub mod changed_files_tree;
