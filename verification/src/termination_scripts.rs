//! The scripts that a forced or emergency termination writes and runs with
//! raised rights: fixed texts with the process and the path of the
//! PowerShell script filled in.
use vstd::prelude::*;
use crate::text::{fill, fill_template};

verus! {

/// The PowerShell script of a forced termination; `{pid}` stands for the
/// process.
pub const FORCE_POWERSHELL_TEMPLATE: &'static str = r#"
        # PowerShell скрипт для принудительного завершения процесса
        Write-Host "Принудительное завершение процесса с PID: {pid}"
        
        # Функция для проверки, существует ли процесс
        function Test-ProcessExists {
            param($id)
            $process = Get-Process -Id $id -ErrorAction SilentlyContinue
            return ($null -ne $process)
        }
        
        # Получаем информацию о процессе
        $processName = "Неизвестный"
        try {
            $processInfo = Get-Process -Id {pid} -ErrorAction SilentlyContinue
            if ($processInfo) {
                $processName = $processInfo.ProcessName
                Write-Host "Целевой процесс: $processName (PID: {pid})"
            }
        } catch {
            Write-Host "Не удалось получить информацию о процессе: $_"
        }
        
        # Метод 1: через Stop-Process
        try {
            Stop-Process -Id {pid} -Force -ErrorAction SilentlyContinue
            Start-Sleep -Seconds 1
            if (-not (Test-ProcessExists -id {pid})) {
                Write-Host "Метод 1: процесс завершен через Stop-Process"
                exit 0
            } else {
                Write-Host "Метод 1: Stop-Process не завершил процесс"
            }
        } catch {
            Write-Host "Метод 1 не удался: $_"
        }
        
        # Метод 2: через taskkill (принудительно с дочерними процессами)
        try {
            taskkill /F /PID {pid} /T
            Start-Sleep -Seconds 1
            if (-not (Test-ProcessExists -id {pid})) {
                Write-Host "Метод 2: процесс завершен через taskkill /F /T"
                exit 0
            } else {
                Write-Host "Метод 2: taskkill не завершил процесс"
            }
        } catch {
            Write-Host "Метод 2 не удался: $_"
        }

        # Метод 3: через WMI
        try {
            $process = Get-WmiObject Win32_Process -Filter "ProcessId = {pid}"
            if ($process) {
                $result = $process.Terminate()
                Start-Sleep -Seconds 1
                if (-not (Test-ProcessExists -id {pid})) {
                    Write-Host "Метод 3: процесс завершен через WMI: $result"
                    exit 0
                } else {
                    Write-Host "Метод 3: WMI не завершил процесс"
                }
            } else {
                Write-Host "Метод 3: процесс не найден через WMI"
            }
        } catch {
            Write-Host "Метод 3 не удался: $_"
        }
        
        # Метод 4: Direct API Call (самый агрессивный)
        Write-Host "Метод 4: Используем прямой Win32 API вызов для завершения процесса"
        Add-Type -TypeDefinition @"
using System;
using System.Diagnostics;
using System.Runtime.InteropServices;
using System.ComponentModel;
public class AdvancedProcessKiller {
    [Flags]
    public enum ProcessAccessFlags : uint
    {
        All = 0x001F0FFF,
        Terminate = 0x00000001,
        CreateThread = 0x00000002,
        VirtualMemoryOperation = 0x00000008,
        VirtualMemoryRead = 0x00000010,
        VirtualMemoryWrite = 0x00000020,
        DuplicateHandle = 0x00000040,
        QueryInformation = 0x00000400,
        SetInformation = 0x00000200,
        Synchronize = 0x00100000
    }
    
    [DllImport("kernel32.dll", SetLastError = true)]
    public static extern IntPtr OpenProcess(ProcessAccessFlags dwDesiredAccess, bool bInheritHandle, uint dwProcessId);
    
    [DllImport("kernel32.dll", SetLastError = true)]
    [return: MarshalAs(UnmanagedType.Bool)]
    public static extern bool TerminateProcess(IntPtr hProcess, uint uExitCode);
    
    [DllImport("kernel32.dll", SetLastError = true)]
    [return: MarshalAs(UnmanagedType.Bool)]
    public static extern bool CloseHandle(IntPtr hObject);
    
    [DllImport("ntdll.dll")]
    public static extern uint NtTerminateProcess(IntPtr hProcess, uint uExitCode);
    
    [DllImport("ntdll.dll")]
    public static extern uint NtSuspendProcess(IntPtr hProcess);

    // Функция для принудительного завершения процесса через множество методов
    public static bool ForceKillProcess(uint processId) {
        IntPtr hProcess = OpenProcess(ProcessAccessFlags.All, false, processId);
        if (hProcess == IntPtr.Zero) {
            throw new Win32Exception(Marshal.GetLastWin32Error(), "Не удалось открыть процесс");
        }
        
        try {
            // Сначала пробуем приостановить процесс
            NtSuspendProcess(hProcess);
            
            // Затем пробуем завершить через стандартный API
            bool terminated = TerminateProcess(hProcess, 0);
            if (!terminated) {
                // Если не удалось, пробуем более низкоуровневый NT API
                uint ntStatus = NtTerminateProcess(hProcess, 0);
                return ntStatus == 0;
            }
            return terminated;
        }
        finally {
            CloseHandle(hProcess);
        }
    }
}
"@
        try {
            $result = [AdvancedProcessKiller]::ForceKillProcess([uint32]{pid})
            Start-Sleep -Seconds 1
            if (-not (Test-ProcessExists -id {pid})) {
                Write-Host "Метод 4: процесс успешно завершен через прямой API вызов"
                exit 0
            } else {
                Write-Host "Метод 4: прямой API вызов не смог завершить процесс"
            }
        } catch {
            Write-Host "Метод 4 не удался: $_"
        }
        
        # Метод 5: Особый подход для Steam (если применимо)
        if ($processName -like "*steam*") {
            Write-Host "Обнаружен процесс Steam, применяем особый метод завершения"
            try {
                # Завершаем сначала все дочерние процессы Steam
                $steamProcesses = Get-WmiObject Win32_Process | Where-Object { $_.Name -like "*steam*" -and $_.ProcessId -ne [int]{pid} }
                foreach ($proc in $steamProcesses) {
                    Write-Host "Завершаем дочерний процесс Steam: $($proc.ProcessId)"
                    taskkill /F /PID $proc.ProcessId
                }
                Start-Sleep -Seconds 1
                
                # Повторная попытка завершить основной процесс
                taskkill /F /PID {pid}
                Start-Sleep -Seconds 1
                
                if (-not (Test-ProcessExists -id {pid})) {
                    Write-Host "Метод 5: процесс Steam успешно завершен через специальный подход"
                    exit 0
                }
            } catch {
                Write-Host "Метод 5 не удался: $_"
            }
        }
        
        # Проверка финального результата
        Start-Sleep -Seconds 1
        $finalCheck = Get-Process -Id {pid} -ErrorAction SilentlyContinue
        if($finalCheck) {
            Write-Host "ОШИБКА: Не удалось завершить процесс {pid} после всех попыток"
            exit 1
        } else {
            Write-Host "УСПЕХ: Процесс {pid} завершен одним из методов"
            exit 0
        }
        "#;

/// The batch file of a forced termination, which starts the PowerShell
/// script with raised rights; `{pid}` stands for the process and `{path}`
/// for the PowerShell script.
pub const FORCE_BATCH_TEMPLATE: &'static str = r#"@echo off
        echo Запуск PowerShell с повышенными правами для завершения процесса {pid}...
        powershell -Command "Start-Process powershell -ArgumentList '-ExecutionPolicy Bypass -File \"{path}\"' -Verb RunAs -WindowStyle Hidden -Wait"
        if errorlevel 1 (
            echo Ошибка при выполнении PowerShell скрипта
            exit /b 1
        ) else (
            echo Процесс успешно завершен
            exit /b 0
        )
        "#;

/// The PowerShell script of an emergency termination; `{pid}` stands for
/// the process.
pub const EMERGENCY_POWERSHELL_TEMPLATE: &'static str = r#"
        # PowerShell скрипт для принудительного завершения процесса
        Write-Host "[Ports] 🔍 PowerShell: Принудительное завершение процесса с PID: {pid}"
        
        # Функция для проверки, существует ли процесс
        function Test-ProcessExists {
            param($id)
            $process = Get-Process -Id $id -ErrorAction SilentlyContinue
            return ($null -ne $process)
        }
        
        # Получаем информацию о процессе
        $processName = "Неизвестный"
        try {
            $processInfo = Get-Process -Id {pid} -ErrorAction SilentlyContinue
            if ($processInfo) {
                $processName = $processInfo.ProcessName
                Write-Host "[Ports] 🔍 PowerShell: Целевой процесс: $processName (PID: {pid})"
            }
        } catch {
            Write-Host "[Ports] ❌ PowerShell: Не удалось получить информацию о процессе: $_"
        }
        
        # Метод 1: через Stop-Process
        try {
            Write-Host "[Ports] 🔍 PowerShell: Пробуем метод 1 - Stop-Process"
            Stop-Process -Id {pid} -Force -ErrorAction SilentlyContinue
            Start-Sleep -Seconds 1
            if (-not (Test-ProcessExists -id {pid})) {
                Write-Host "[Ports] ✅ PowerShell: Метод 1: процесс завершен через Stop-Process"
                exit 0
            } else {
                Write-Host "[Ports] ❌ PowerShell: Метод 1: Stop-Process не завершил процесс"
            }
        } catch {
            Write-Host "[Ports] ❌ PowerShell: Метод 1 не удался: $_"
        }
        
        # Метод 2: через taskkill (принудительно с дочерними процессами)
        try {
            Write-Host "[Ports] 🔍 PowerShell: Пробуем метод 2 - taskkill /F /T"
            taskkill /F /PID {pid} /T
            Start-Sleep -Seconds 1
            if (-not (Test-ProcessExists -id {pid})) {
                Write-Host "[Ports] ✅ PowerShell: Метод 2: процесс завершен через taskkill /F /T"
                exit 0
            } else {
                Write-Host "[Ports] ❌ PowerShell: Метод 2: taskkill не завершил процесс"
            }
        } catch {
            Write-Host "[Ports] ❌ PowerShell: Метод 2 не удался: $_"
        }

        # Метод 3: через WMI
        try {
            Write-Host "[Ports] 🔍 PowerShell: Пробуем метод 3 - WMI"
            $process = Get-WmiObject Win32_Process -Filter "ProcessId = {pid}"
            if ($process) {
                $result = $process.Terminate()
                Start-Sleep -Seconds 1
                if (-not (Test-ProcessExists -id {pid})) {
                    Write-Host "[Ports] ✅ PowerShell: Метод 3: процесс завершен через WMI: $result"
                    exit 0
                } else {
                    Write-Host "[Ports] ❌ PowerShell: Метод 3: WMI не завершил процесс"
                }
            } else {
                Write-Host "[Ports] ❌ PowerShell: Метод 3: процесс не найден через WMI"
            }
        } catch {
            Write-Host "[Ports] ❌ PowerShell: Метод 3 не удался: $_"
        }
        
        # Метод 4: Direct API Call (самый агрессивный)
        Write-Host "[Ports] 🔍 PowerShell: Пробуем метод 4 - прямой Win32 API вызов"
        Add-Type -TypeDefinition @"
using System;
using System.Diagnostics;
using System.Runtime.InteropServices;
using System.ComponentModel;
public class AdvancedProcessKiller {
    [Flags]
    public enum ProcessAccessFlags : uint
    {
        All = 0x001F0FFF,
        Terminate = 0x00000001,
        CreateThread = 0x00000002,
        VirtualMemoryOperation = 0x00000008,
        VirtualMemoryRead = 0x00000010,
        VirtualMemoryWrite = 0x00000020,
        DuplicateHandle = 0x00000040,
        QueryInformation = 0x00000400,
        SetInformation = 0x00000200,
        Synchronize = 0x00100000
    }
    
    [DllImport("kernel32.dll", SetLastError = true)]
    public static extern IntPtr OpenProcess(ProcessAccessFlags dwDesiredAccess, bool bInheritHandle, uint dwProcessId);
    
    [DllImport("kernel32.dll", SetLastError = true)]
    [return: MarshalAs(UnmanagedType.Bool)]
    public static extern bool TerminateProcess(IntPtr hProcess, uint uExitCode);
    
    [DllImport("kernel32.dll", SetLastError = true)]
    [return: MarshalAs(UnmanagedType.Bool)]
    public static extern bool CloseHandle(IntPtr hObject);
    
    [DllImport("ntdll.dll")]
    public static extern uint NtTerminateProcess(IntPtr hProcess, uint uExitCode);
    
    [DllImport("ntdll.dll")]
    public static extern uint NtSuspendProcess(IntPtr hProcess);

    // Функция для принудительного завершения процесса через множество методов
    public static bool ForceKillProcess(uint processId) {
        IntPtr hProcess = OpenProcess(ProcessAccessFlags.All, false, processId);
        if (hProcess == IntPtr.Zero) {
            throw new Win32Exception(Marshal.GetLastWin32Error(), "Не удалось открыть процесс");
        }
        
        try {
            // Сначала пробуем приостановить процесс
            NtSuspendProcess(hProcess);
            
            // Затем пробуем завершить через стандартный API
            bool terminated = TerminateProcess(hProcess, 0);
            if (!terminated) {
                // Если не удалось, пробуем более низкоуровневый NT API
                uint ntStatus = NtTerminateProcess(hProcess, 0);
                return ntStatus == 0;
            }
            return terminated;
        }
        finally {
            CloseHandle(hProcess);
        }
    }
}
"@
        try {
            $result = [AdvancedProcessKiller]::ForceKillProcess([uint32]{pid})
            Start-Sleep -Seconds 1
            if (-not (Test-ProcessExists -id {pid})) {
                Write-Host "[Ports] ✅ PowerShell: Метод 4: процесс успешно завершен через прямой API вызов"
                exit 0
            } else {
                Write-Host "[Ports] ❌ PowerShell: Метод 4: прямой API вызов не смог завершить процесс"
            }
        } catch {
            Write-Host "[Ports] ❌ PowerShell: Метод 4 не удался: $_"
        }
        
        # Метод 5: Особый подход для Steam (если применимо)
        if ($processName -like "*steam*" -or $processName -like "*game*" -or $processName -like "*epic*") {
            Write-Host "[Ports] 🔍 PowerShell: Обнаружен игровой процесс, применяем особый метод завершения"
            try {
                # Завершаем сначала все дочерние процессы 
                $childProcesses = Get-WmiObject Win32_Process | Where-Object { 
                    ($_.ParentProcessId -eq [int]{pid}) -or 
                    ($_.Name -like "*steam*" -and $_.ProcessId -ne [int]{pid}) -or
                    ($_.Name -like "*game*" -and $_.ProcessId -ne [int]{pid}) -or
                    ($_.Name -like "*epic*" -and $_.ProcessId -ne [int]{pid})
                }
                
                if($childProcesses) {
                    Write-Host "[Ports] 🔍 PowerShell: Найдено $($childProcesses.Count) дочерних процессов"
                    foreach ($proc in $childProcesses) {
                        Write-Host "[Ports] 🔍 PowerShell: Завершаем дочерний процесс: $($proc.ProcessId) ($($proc.Name))"
                        taskkill /F /PID $proc.ProcessId
                    }
                    Start-Sleep -Seconds 1
                }
                
                # Повторная попытка завершить основной процесс
                Write-Host "[Ports] 🔍 PowerShell: Повторная попытка завершить основной процесс taskkill /F /PID {pid}"
                taskkill /F /PID {pid}
                Start-Sleep -Seconds 1
                
                if (-not (Test-ProcessExists -id {pid})) {
                    Write-Host "[Ports] ✅ PowerShell: Метод 5: процесс успешно завершен через специальный подход"
                    exit 0
                } else {
                    Write-Host "[Ports] ❌ PowerShell: Метод 5: специальный подход не помог"
                }
            } catch {
                Write-Host "[Ports] ❌ PowerShell: Метод 5 не удался: $_"
            }
        }
        
        # Проверка финального результата
        Start-Sleep -Seconds 1
        $finalCheck = Get-Process -Id {pid} -ErrorAction SilentlyContinue
        if($finalCheck) {
            Write-Host "[Ports] ❌ PowerShell: ОШИБКА: Не удалось завершить процесс {pid} после всех попыток"
            exit 1
        } else {
            Write-Host "[Ports] ✅ PowerShell: УСПЕХ: Процесс {pid} завершен одним из методов"
            exit 0
        }
        "#;

/// The batch file of an emergency termination, which tries the system's
/// tools and then the PowerShell script; `{pid}` stands for the process
/// and `{path}` for the PowerShell script.
pub const EMERGENCY_BATCH_TEMPLATE: &'static str = r#"@echo off
        echo [Ports] 🔍 Batch: Экстренное завершение процесса PID: {pid}
        
        REM Попытка 1: taskkill с максимальной агрессивностью
        echo [Ports] 🔍 Batch: Попытка 1 - taskkill /F /PID {pid} /T
        taskkill /F /PID {pid} /T
        
        REM Попытка 2: wmic - работает в некоторых случаях, где taskkill не справляется
        echo [Ports] 🔍 Batch: Попытка 2 - wmic process where processid="{pid}" call terminate
        wmic process where processid="{pid}" call terminate
        
        REM Попытка 3: PowerShell с максимальными привилегиями
        echo [Ports] 🔍 Batch: Попытка 3 - PowerShell с повышенными привилегиями
        powershell -Command "Start-Process powershell -ArgumentList '-Command \"Stop-Process -Id {pid} -Force\"' -Verb RunAs -WindowStyle Hidden"
        
        REM Попытка 4: Используем PsKill от SysInternals если он есть
        if exist "%ProgramFiles%\SysInternals\pskill.exe" (
            echo [Ports] 🔍 Batch: Попытка 4 - PsKill (SysInternals)
            "%ProgramFiles%\SysInternals\pskill.exe" -t {pid}
        ) else if exist "%ProgramFiles(x86)%\SysInternals\pskill.exe" (
            echo [Ports] 🔍 Batch: Попытка 4 - PsKill (SysInternals x86)
            "%ProgramFiles(x86)%\SysInternals\pskill.exe" -t {pid}
        )
        
        REM Попытка 5: Запуск сложного PowerShell скрипта с повышенными привилегиями
        echo [Ports] 🔍 Batch: Попытка 5 - Запуск сложного PowerShell скрипта
        powershell -Command "Start-Process powershell -ArgumentList '-ExecutionPolicy Bypass -File \"{path}\"' -Verb RunAs -WindowStyle Hidden -Wait"
        
        REM Даем время на завершение
        timeout /t 2 > nul
        
        REM Проверка
        echo [Ports] 🔍 Batch: Проверка результата
        tasklist /FI "PID eq {pid}" /NH | find "{pid}" > nul
        if errorlevel 1 (
            echo [Ports] ✅ Batch: Процесс успешно завершен
            exit /b 0
        ) else (
            echo [Ports] ❌ Batch: Не удалось завершить процесс
            exit /b 1
        )
        "#;

/// The PowerShell script of a forced termination of `pid`.
pub fn force_powershell_script(pid: &str) -> (r: String)
    ensures
        r@ == fill(FORCE_POWERSHELL_TEMPLATE@, "{pid}"@, pid@),
{
    fill_template(FORCE_POWERSHELL_TEMPLATE, "{pid}", pid)
}

/// The batch file of a forced termination of `pid`, which starts the
/// PowerShell script at `ps_path`.
pub fn force_batch_script(pid: &str, ps_path: &str) -> (r: String)
    ensures
        r@ == fill(fill(FORCE_BATCH_TEMPLATE@, "{pid}"@, pid@), "{path}"@, ps_path@),
{
    let t = fill_template(FORCE_BATCH_TEMPLATE, "{pid}", pid);
    fill_template(t.as_str(), "{path}", ps_path)
}

/// The PowerShell script of an emergency termination of `pid`.
pub fn emergency_powershell_script(pid: &str) -> (r: String)
    ensures
        r@ == fill(EMERGENCY_POWERSHELL_TEMPLATE@, "{pid}"@, pid@),
{
    fill_template(EMERGENCY_POWERSHELL_TEMPLATE, "{pid}", pid)
}

/// The batch file of an emergency termination of `pid`, which ends by
/// starting the PowerShell script at `ps_path`.
pub fn emergency_batch_script(pid: &str, ps_path: &str) -> (r: String)
    ensures
        r@ == fill(fill(EMERGENCY_BATCH_TEMPLATE@, "{pid}"@, pid@), "{path}"@, ps_path@),
{
    let t = fill_template(EMERGENCY_BATCH_TEMPLATE, "{pid}", pid);
    fill_template(t.as_str(), "{path}", ps_path)
}

} // verus!
